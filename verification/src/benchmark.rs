//! Judging translations and detections of a dataset.
//!
//! Scores that are fractions are computed by the caller; what is right, what is counted and how a
//! line of the table looks is decided here.

use vstd::prelude::*;

use crate::backend::TranslateError;
use crate::detection::parse_detection_response;
use crate::languages::{get_language_from_code, LangDetect, Language};
use crate::prompt::{Prompt, PromptBuilder};
use crate::text;

verus! {

/// A text of the dataset with its language and a reference translation.
#[derive(Debug)]
pub struct BenchmarkItem {
    pub source: String,
    pub source_language: String,
    pub target_language: String,
    pub reference: String,
}

/// A detection and whether it is right.
#[derive(Debug)]
pub struct DetectionResult {
    pub detected: String,
    pub confidence: i32,
    pub correct: bool,
}

/// How the service did on one item.
#[derive(Debug)]
pub struct ItemResult {
    pub idx: usize,
    pub source_lang: String,
    pub target_lang: String,
    pub llm_detection: Option<DetectionResult>,
    pub whatlang_detection: DetectionResult,
    pub translated: String,
    pub exact_match: bool,
}

/// How the service did on the whole dataset.
#[derive(Debug)]
pub struct BenchmarkSummary {
    pub total: usize,
    pub exact: usize,
    pub whatlang_correct: usize,
    pub llm_correct: usize,
}

/// Whether a dataset may mean `l` by `label`: by one of its codes or by its name.
pub open spec fn is_called(l: Language, label: Seq<char>) -> bool {
    l.internal_code@ == label || l.code@ == label || l.name@ == label
}

/// The first language that a dataset may mean by `label`.
pub open spec fn ground_truth(languages: Seq<Language>, label: Seq<char>) -> Option<Language> {
    crate::languages::first_where(languages, |l: Language| is_called(l, label))
}

/// The name of the language that a dataset means by `label`, or else the label itself.
pub open spec fn true_name(languages: Seq<Language>, label: Seq<char>) -> Seq<char> {
    match ground_truth(languages, label) {
        Some(l) => l.name@,
        None => label,
    }
}

/// Whether a language that the model named is the one of the item.
pub open spec fn model_is_right(languages: Seq<Language>, l: Language, label: Seq<char>) -> bool {
    l.internal_code@ == label || l.name@ == true_name(languages, label) || l.code@ == label
}

/// The name of the language that a dataset means by `label`.
pub fn find_ground_truth_language(languages: &[Language], code: &str) -> (r: Option<&'static str>)
    ensures
        match ground_truth(languages@, code@) {
            Some(l) => r matches Some(name) && name@ == l.name@,
            None => r is None,
        },
{
    let ghost p = |l: Language| is_called(l, code@);
    let mut i: usize = 0;
    while i < languages.len()
        invariant
            i <= languages@.len(),
            p == (|l: Language| is_called(l, code@)),
            forall|j: int| 0 <= j < i ==> !p(#[trigger] languages@[j]),
        decreases languages@.len() - i,
    {
        let l: &Language = &languages[i];
        if text::same(l.internal_code, code) || text::same(l.code, code) || text::same(
            l.name,
            code,
        ) {
            proof {
                crate::languages::lemma_first_where(languages@, p, i as int);
            }
            return Some(l.name);
        }
        i = i + 1;
    }
    proof {
        crate::languages::lemma_first_where(languages@, p, languages@.len() as int);
    }
    None
}

/// What a detection of the statistical detector is worth.
pub open spec fn is_whatlang_verdict(
    r: DetectionResult,
    item: BenchmarkItem,
    found: LangDetect,
) -> bool {
    &&& r.detected@ == found.language.name@
    &&& r.confidence == found.confidence
    &&& r.correct == (found.language.internal_code@ == item.source_language@)
}

/// What a detection of the model is worth. Where the model does not answer or names no known
/// language, the statistical detector answers in its place.
pub open spec fn is_llm_verdict(
    r: DetectionResult,
    languages: Seq<Language>,
    item: BenchmarkItem,
    answer: Option<Seq<char>>,
    fallback: LangDetect,
) -> bool {
    let read = match answer {
        Some(a) => crate::detection::detection_spec(languages, a),
        None => None,
    };
    match read {
        Some((l, confidence)) => {
            &&& r.detected@ == l.name@
            &&& r.confidence == confidence
            &&& r.correct == model_is_right(languages, l, item.source_language@)
        },
        None => is_whatlang_verdict(r, item, fallback),
    }
}

/// Judges a detection of the statistical detector.
pub fn whatlang_verdict(item: &BenchmarkItem, found: &LangDetect) -> (r: DetectionResult)
    ensures
        is_whatlang_verdict(r, *item, *found),
{
    DetectionResult {
        detected: found.language.name.to_owned(),
        confidence: found.confidence,
        correct: text::same(found.language.internal_code, item.source_language.as_str()),
    }
}

/// Judges a detection of the model.
pub fn llm_verdict(
    languages: &[Language],
    item: &BenchmarkItem,
    answer: Option<&str>,
    fallback: &LangDetect,
) -> (r: DetectionResult)
    ensures
        is_llm_verdict(r, languages@, *item, text::opt_str(answer), *fallback),
{
    let label: &str = item.source_language.as_str();
    if let Some(a) = answer {
        if let Some((l, confidence)) = parse_detection_response(languages, a) {
            let names_it: bool = match find_ground_truth_language(languages, label) {
                Some(name) => text::same(l.name, name),
                None => text::same(l.name, label),
            };
            return DetectionResult {
                detected: l.name.to_owned(),
                confidence,
                correct: text::same(l.internal_code, label) || names_it || text::same(
                    l.code,
                    label,
                ),
            };
        }
    }
    whatlang_verdict(item, fallback)
}

/// The name of the language to translate an item to; English where the dataset names none that is
/// known.
pub open spec fn target_name(languages: Seq<Language>, label: Seq<char>) -> Seq<char> {
    match crate::languages::language_of_code(languages, label) {
        Some(l) => l.name@,
        None => "English"@,
    }
}

/// The prompts that ask for the language of an item.
pub fn detection_prompt(item: &BenchmarkItem) -> (r: Prompt)
    ensures
        r.system@ == crate::prompt::detection_system_prompt(),
        r.user@ == crate::prompt::detection_user_prompt(item.source@),
{
    PromptBuilder::new().build_detect_prompt(item.source.as_str())
}

/// The prompts that ask for the translation of an item. The source language is not given away.
pub fn translation_prompt(languages: &[Language], item: &BenchmarkItem) -> (r: Prompt)
    ensures
        r.system@ == crate::prompt::translation_system_prompt(),
        r.user@ == crate::prompt::translation_user_prompt(
            "text"@,
            None,
            target_name(languages@, item.target_language@),
            item.source@,
        ),
{
    let mut pb = PromptBuilder::new();
    match get_language_from_code(languages, item.target_language.as_str()) {
        Some(l) => pb.set_target_language(l.name),
        None => pb.set_target_language("English"),
    }
    pb.build(&item.source)
}

/// The text that counts as translation: what the backend gave, or its error in brackets.
pub open spec fn translation_spec(outcome: Result<String, TranslateError>) -> Seq<char> {
    match outcome {
        Ok(t) => t@,
        Err(e) => "[Error: "@ + e.message_spec() + "]"@,
    }
}

/// Puts together how the service did on item number `index`, counted from 0. `answer` is what the
/// model said of the language, and is only looked at where the model was asked.
pub fn evaluate_item(
    languages: &[Language],
    index: usize,
    item: &BenchmarkItem,
    use_llm_detect: bool,
    answer: Option<&str>,
    whatlang: &LangDetect,
    outcome: Result<String, TranslateError>,
) -> (r: ItemResult)
    requires
        index < usize::MAX,
    ensures
        r.idx == index + 1,
        r.source_lang@ == item.source_language@,
        r.target_lang@ == item.target_language@,
        r.llm_detection is Some <==> use_llm_detect,
        r.llm_detection matches Some(d) ==> is_llm_verdict(
            d,
            languages@,
            *item,
            text::opt_str(answer),
            *whatlang,
        ),
        is_whatlang_verdict(r.whatlang_detection, *item, *whatlang),
        r.translated@ == translation_spec(outcome),
        r.exact_match == (text::trim_spec(r.translated@) == text::trim_spec(item.reference@)),
{
    let llm_detection = if use_llm_detect {
        Some(llm_verdict(languages, item, answer, whatlang))
    } else {
        None
    };
    let translated = match outcome {
        Ok(t) => t,
        Err(e) => {
            let mut out = "[Error: ".to_owned();
            out.append(e.message().as_str());
            out.append("]");
            out
        },
    };
    let exact_match: bool = text::same(
        text::trim(translated.as_str()).as_str(),
        text::trim(item.reference.as_str()).as_str(),
    );
    ItemResult {
        idx: index + 1,
        source_lang: item.source_language.clone(),
        target_lang: item.target_language.clone(),
        llm_detection,
        whatlang_detection: whatlang_verdict(item, whatlang),
        translated,
        exact_match,
    }
}

/// Whether the model was asked for the language and was right.
pub open spec fn llm_was_right(r: ItemResult) -> bool {
    r.llm_detection is Some && r.llm_detection->0.correct
}

/// Counts over the whole dataset.
pub fn summarize(results: &Vec<ItemResult>) -> (r: BenchmarkSummary)
    ensures
        r.total == results@.len(),
        r.exact == results@.filter(|x: ItemResult| x.exact_match).len(),
        r.whatlang_correct == results@.filter(
            |x: ItemResult| x.whatlang_detection.correct,
        ).len(),
        r.llm_correct == results@.filter(|x: ItemResult| llm_was_right(x)).len(),
{
    let mut exact: usize = 0;
    let mut whatlang_correct: usize = 0;
    let mut llm_correct: usize = 0;
    let mut i: usize = 0;
    let ghost fe = |x: ItemResult| x.exact_match;
    let ghost fw = |x: ItemResult| x.whatlang_detection.correct;
    let ghost fl = |x: ItemResult| llm_was_right(x);
    proof {
        reveal(Seq::filter);
    }
    while i < results.len()
        invariant
            i <= results@.len(),
            fe == (|x: ItemResult| x.exact_match),
            fw == (|x: ItemResult| x.whatlang_detection.correct),
            fl == (|x: ItemResult| llm_was_right(x)),
            exact == results@.take(i as int).filter(fe).len(),
            whatlang_correct == results@.take(i as int).filter(fw).len(),
            llm_correct == results@.take(i as int).filter(fl).len(),
            exact <= i,
            whatlang_correct <= i,
            llm_correct <= i,
        decreases results@.len() - i,
    {
        proof {
            reveal(Seq::filter);
            let next = results@.take(i + 1);
            assert(next.drop_last() == results@.take(i as int));
            assert(next.last() == results@[i as int]);
        }
        let r: &ItemResult = &results[i];
        if r.exact_match {
            exact = exact + 1;
        }
        if r.whatlang_detection.correct {
            whatlang_correct = whatlang_correct + 1;
        }
        if let Some(d) = &r.llm_detection {
            if d.correct {
                llm_correct = llm_correct + 1;
            }
        }
        i = i + 1;
    }
    proof {
        assert(results@.take(results@.len() as int) == results@);
    }
    BenchmarkSummary { total: results.len(), exact, whatlang_correct, llm_correct }
}

/// `n` spaces.
pub open spec fn spaces(n: int) -> Seq<char> {
    Seq::new(n as nat, |i: int| ' ')
}

/// `s` followed by as many spaces as it takes to be `width` characters wide.
pub open spec fn padded_spec(s: Seq<char>, width: int) -> Seq<char> {
    if s.len() < width {
        s + spaces(width - s.len())
    } else {
        s
    }
}

/// A line of the table: eight cells, each padded to its width, with a space between each two.
pub open spec fn row_spec(cells: Seq<Seq<char>>) -> Seq<char> {
    let r1 = padded_spec(cells[0], 6).push(' ') + padded_spec(cells[1], 20);
    let r2 = r1.push(' ') + padded_spec(cells[2], 10);
    let r3 = r2.push(' ') + padded_spec(cells[3], 20);
    let r4 = r3.push(' ') + padded_spec(cells[4], 20);
    let r5 = r4.push(' ') + padded_spec(cells[5], 8);
    let r6 = r5.push(' ') + padded_spec(cells[6], 12);
    r6.push(' ') + padded_spec(cells[7], 8)
}

fn push_padded(out: &mut String, s: &str, width: usize)
    ensures
        final(out)@ == old(out)@ + padded_spec(s@, width as int),
{
    out.append(s);
    let mut n: usize = s.unicode_len();
    let ghost start = n;
    assert(out@ + spaces(0) =~= out@);
    while n < width
        invariant
            start <= n,
            start < width ==> n <= width,
            start >= width ==> n == start,
            out@ == old(out)@ + s@ + spaces(n - start),
        decreases width - n,
    {
        out.push(' ');
        n = n + 1;
        assert(out@ =~= old(out)@ + s@ + spaces(n - start));
    }
    proof {
        assert(out@ =~= old(out)@ + padded_spec(s@, width as int));
    }
}

fn row(
    c0: &str,
    c1: &str,
    c2: &str,
    c3: &str,
    c4: &str,
    c5: &str,
    c6: &str,
    c7: &str,
) -> (r: String)
    ensures
        r@ == row_spec(seq![c0@, c1@, c2@, c3@, c4@, c5@, c6@, c7@]),
{
    let mut out = String::new();
    push_padded(&mut out, c0, 6);
    assert(out@ =~= padded_spec(c0@, 6));
    out.push(' ');
    push_padded(&mut out, c1, 20);
    out.push(' ');
    push_padded(&mut out, c2, 10);
    out.push(' ');
    push_padded(&mut out, c3, 20);
    out.push(' ');
    push_padded(&mut out, c4, 20);
    out.push(' ');
    push_padded(&mut out, c5, 8);
    out.push(' ');
    push_padded(&mut out, c6, 12);
    out.push(' ');
    push_padded(&mut out, c7, 8);
    out
}

/// The head of the table.
pub fn table_header(use_llm_detect: bool) -> (r: String)
    ensures
        r@ == row_spec(
            seq![
                "#"@,
                "Source Lang (GT)"@,
                "Target"@,
                if use_llm_detect {
                    "Detected (LLM)"@
                } else {
                    "\u{2014}"@
                },
                "Detected (whatlang)"@,
                "BLEU"@,
                "Exact"@,
                "Correct"@,
            ],
        ),
{
    let llm_header: &str = if use_llm_detect {
        "Detected (LLM)"
    } else {
        "\u{2014}"
    };
    row(
        "#",
        "Source Lang (GT)",
        "Target",
        llm_header,
        "Detected (whatlang)",
        "BLEU",
        "Exact",
        "Correct",
    )
}

/// How the table says yes and no.
pub open spec fn yes_no(b: bool) -> Seq<char> {
    if b {
        "Yes"@
    } else {
        "No"@
    }
}

/// The line of the table for one item, with its BLEU score as it is written.
pub fn table_row(r: &ItemResult, bleu: &str) -> (line: String)
    ensures
        line@ == row_spec(
            seq![
                text::decimal_spec(r.idx as nat),
                r.source_lang@,
                r.target_lang@,
                match r.llm_detection {
                    Some(d) => d.detected@,
                    None => Seq::empty(),
                },
                r.whatlang_detection.detected@,
                bleu@,
                yes_no(r.exact_match),
                yes_no(r.whatlang_detection.correct),
            ],
        ),
{
    let llm: String = match &r.llm_detection {
        Some(d) => d.detected.clone(),
        None => String::new(),
    };
    let exact: &str = if r.exact_match {
        "Yes"
    } else {
        "No"
    };
    let correct: &str = if r.whatlang_detection.correct {
        "Yes"
    } else {
        "No"
    };
    row(
        text::decimal(r.idx as u128).as_str(),
        r.source_lang.as_str(),
        r.target_lang.as_str(),
        llm.as_str(),
        r.whatlang_detection.detected.as_str(),
        bleu,
        exact,
        correct,
    )
}

/// A language that the model names by the very label of the dataset, code or name, is right.
pub proof fn law_named_by_label_is_right(languages: Seq<Language>, l: Language, label: Seq<char>)
    requires
        is_called(l, label),
        languages.contains(l),
    ensures
        l.internal_code@ == label || l.code@ == label ==> model_is_right(languages, l, label),
        (forall|k: Language|
            #[trigger] languages.contains(k) && is_called(k, label) ==> k.name@ == l.name@)
            ==> model_is_right(languages, l, label),
{
    let p = |k: Language| is_called(k, label);
    let i = choose|i: int| 0 <= i < languages.len() && languages[i] == l;
    assert(p(languages[i]));
    crate::languages::lemma_first_where_found(languages, p);
    let found = ground_truth(languages, label)->0;
    assert(languages.contains(found) && is_called(found, label));
}

/// Counts never exceed the number of items, and the model is never right where it was not asked.
pub proof fn law_counts_are_bounded(results: Seq<ItemResult>)
    ensures
        results.filter(|x: ItemResult| x.exact_match).len() <= results.len(),
        results.filter(|x: ItemResult| x.whatlang_detection.correct).len() <= results.len(),
        results.filter(|x: ItemResult| llm_was_right(x)).len() <= results.len(),
        (forall|i: int| 0 <= i < results.len() ==> (#[trigger] results[i]).llm_detection is None)
            ==> results.filter(|x: ItemResult| llm_was_right(x)).len() == 0,
    decreases results.len(),
{
    reveal(Seq::filter);
    if results.len() > 0 {
        let rest = results.drop_last();
        law_counts_are_bounded(rest);
        if forall|i: int| 0 <= i < results.len() ==> (#[trigger] results[i]).llm_detection is None {
            assert forall|i: int| 0 <= i < rest.len() implies (
            #[trigger] rest[i]).llm_detection is None by {
                assert(rest[i] == results[i]);
            }
            assert(results[results.len() - 1].llm_detection is None);
        }
    }
}

} // verus!
