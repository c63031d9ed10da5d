//! Laws of judging a dataset.

use vstd::prelude::*;

use crate::backend::TranslateError;
use crate::benchmark::{
    ground_truth, is_called, is_llm_verdict, is_whatlang_verdict, llm_was_right, model_is_right,
    padded_spec, row_spec, spaces, target_name, translation_spec, true_name, yes_no, BenchmarkItem,
    DetectionResult, ItemResult,
};
use crate::detection::detection_spec;
use crate::languages::{language_of_code, LangDetect, Language};
use crate::laws::languages::{lemma_first_where_in_one, lemma_first_where_in_two};

verus! {

/// A label of the dataset means the first language that has it as internal code, code or name.
pub proof fn law_labels(a: Seq<Language>, l: Language, b: Seq<Language>, label: Seq<char>)
    ensures
        ground_truth(Seq::empty(), label) is None,
        l.internal_code@ == label || l.code@ == label || l.name@ == label ==> ground_truth(
            seq![l],
            label,
        ) == Some(l),
        l.internal_code@ != label && l.code@ != label && l.name@ != label ==> ground_truth(
            seq![l],
            label,
        ) is None,
        ground_truth(a, label) is Some ==> ground_truth(a + b, label) == ground_truth(a, label),
        ground_truth(a, label) is None ==> ground_truth(a + b, label) == ground_truth(b, label),
        ground_truth(a, label) matches Some(k) ==> true_name(a, label) == k.name@,
        ground_truth(a, label) is None ==> true_name(a, label) == label,
{
    let p = |k: Language| is_called(k, label);
    lemma_first_where_in_one(l, p);
    lemma_first_where_in_two(a, b, p);
}

/// The model is right where the language it names has the label as a code, or the name that the
/// label stands for.
pub proof fn law_right_answers(languages: Seq<Language>, l: Language, label: Seq<char>)
    ensures
        model_is_right(languages, l, label) <==> l.internal_code@ == label || l.code@ == label
            || l.name@ == true_name(languages, label),
{
}

/// The statistical detector is right where it finds the internal code that the dataset has. Its
/// finding is told by name, with its confidence.
pub proof fn law_statistical_verdicts(r: DetectionResult, item: BenchmarkItem, found: LangDetect)
    ensures
        is_whatlang_verdict(r, item, found) <==> r.detected@ == found.language.name@ && r.confidence
            == found.confidence && (r.correct <==> found.language.internal_code@
            == item.source_language@),
{
}

/// The verdict on the model is on the language it names; where it gives no answer, or none that can
/// be read, it is the one on the statistical detector.
pub proof fn law_verdicts_on_the_model(
    r: DetectionResult,
    languages: Seq<Language>,
    item: BenchmarkItem,
    answer: Seq<char>,
    fallback: LangDetect,
)
    ensures
        is_llm_verdict(r, languages, item, None, fallback) <==> is_whatlang_verdict(
            r,
            item,
            fallback,
        ),
        detection_spec(languages, answer) is None ==> (is_llm_verdict(
            r,
            languages,
            item,
            Some(answer),
            fallback,
        ) <==> is_whatlang_verdict(r, item, fallback)),
        detection_spec(languages, answer) matches Some(d) ==> (is_llm_verdict(
            r,
            languages,
            item,
            Some(answer),
            fallback,
        ) <==> r.detected@ == d.0.name@ && r.confidence == d.1 && (r.correct <==> model_is_right(
            languages,
            d.0,
            item.source_language@,
        ))),
{
}

/// Items are translated to the language that the dataset names by a code, or else to English.
pub proof fn law_target_language(languages: Seq<Language>, label: Seq<char>)
    ensures
        language_of_code(languages, label) matches Some(l) ==> target_name(languages, label)
            == l.name@,
        language_of_code(languages, label) is None ==> target_name(languages, label) == "English"@,
{
}

/// What counts as the translation of an item: the text that the model gave, or its error.
pub proof fn law_translations(t: String, e: TranslateError)
    ensures
        translation_spec(Ok(t)) == t@,
        translation_spec(Err(e)) == "[Error: "@ + e.message_spec() + "]"@,
{
}

/// The model was right where it was asked and its verdict says so.
pub proof fn law_model_was_right(r: ItemResult)
    ensures
        llm_was_right(r) <==> (r.llm_detection matches Some(d) && d.correct),
        yes_no(true) == "Yes"@,
        yes_no(false) == "No"@,
{
}

/// A cell is filled up with spaces to its width, and never cut.
pub proof fn law_cells(s: Seq<char>, width: int, i: int)
    requires
        width >= 0,
    ensures
        s.len() >= width ==> padded_spec(s, width) == s,
        s.len() < width ==> padded_spec(s, width).len() == width,
        0 <= i < s.len() ==> padded_spec(s, width)[i] == s[i],
        s.len() <= i < width ==> padded_spec(s, width)[i] == ' ',
        spaces(width).len() == width,
        0 <= i < width ==> spaces(width)[i] == ' ',
{
}

/// A line is its eight cells in order, 6, 20, 10, 20, 20, 8, 12 and 8 characters wide, with one space
/// between each two.
pub proof fn law_lines(cells: Seq<Seq<char>>)
    ensures
        row_spec(cells) == padded_spec(cells[0], 6) + seq![' '] + padded_spec(cells[1], 20)
            + seq![' '] + padded_spec(cells[2], 10) + seq![' '] + padded_spec(cells[3], 20)
            + seq![' '] + padded_spec(cells[4], 20) + seq![' '] + padded_spec(cells[5], 8)
            + seq![' '] + padded_spec(cells[6], 12) + seq![' '] + padded_spec(cells[7], 8),
{
    let a = padded_spec(cells[0], 6);
    assert(a.push(' ') =~= a + seq![' ']);
    let b = a + seq![' '] + padded_spec(cells[1], 20);
    assert(b.push(' ') =~= b + seq![' ']);
    let c = b + seq![' '] + padded_spec(cells[2], 10);
    assert(c.push(' ') =~= c + seq![' ']);
    let d = c + seq![' '] + padded_spec(cells[3], 20);
    assert(d.push(' ') =~= d + seq![' ']);
    let e = d + seq![' '] + padded_spec(cells[4], 20);
    assert(e.push(' ') =~= e + seq![' ']);
    let f = e + seq![' '] + padded_spec(cells[5], 8);
    assert(f.push(' ') =~= f + seq![' ']);
    let g = f + seq![' '] + padded_spec(cells[6], 12);
    assert(g.push(' ') =~= g + seq![' ']);
}

} // verus!
