//! Laws of reading the language that a model names.

use vstd::prelude::*;

use crate::detection::{
    detection_spec, is_labelled, label_and_score, match_spec, score_spec,
};
use crate::languages::Language;
use crate::laws::languages::{lemma_first_where_in_one, lemma_first_where_in_two};
use crate::laws::text::{law_strip_leaves_what_is_between, law_words};
use crate::std_text::lowercase;
use crate::text::{
    begins_with, drops, ends_in, is_white_space, join_spec, lead, numeral_value, strip, tail,
    trim_spec, words_spec, Edge,
};

verus! {

/// A response matches the first language of the table that it matches at all; languages behind it
/// make no difference.
pub proof fn law_first_language_wins(a: Seq<Language>, b: Seq<Language>, response: Seq<char>)
    ensures
        match_spec(Seq::empty(), response) is None,
        match_spec(a, response) is Some ==> match_spec(a + b, response) == match_spec(a, response),
        match_spec(a, response) is None ==> match_spec(a + b, response) == match_spec(b, response),
{
    lemma_first_where_in_two(a, b, |l: Language| is_labelled(l, response));
}

/// A response, with quotes, parentheses and white space round it, matches a language by its internal
/// code, by its code or by its name, in any case, and by nothing else. A name that has such
/// characters at its own ends matches where they are there.
pub proof fn law_what_matches(l: Language, before: Seq<char>, m: Seq<char>, after: Seq<char>)
    requires
        forall|i: int| 0 <= i < before.len() ==> drops(Edge::Label, #[trigger] before[i]),
        forall|i: int| 0 <= i < after.len() ==> drops(Edge::Label, #[trigger] after[i]),
        m.len() > 0,
        !drops(Edge::Label, m[0]),
        !drops(Edge::Label, m[m.len() - 1]),
    ensures
        match_spec(seq![l], before + m + after) is Some <==> {
            ||| lowercase(m) == l.internal_code@
            ||| lowercase(m) == lowercase(l.code@)
            ||| {
                &&& lowercase(m) == lowercase(strip(l.name@, Edge::Label))
                &&& ends_in(before, lead(l.name@, Edge::Label))
                &&& begins_with(after, tail(l.name@, Edge::Label))
                &&& {
                    ||| lead(l.name@, Edge::Label).len() == 0 && tail(l.name@, Edge::Label).len() == 0
                    ||| !strip(l.name@, Edge::Label).contains('(') && !strip(
                        l.name@,
                        Edge::Label,
                    ).contains(')')
                    ||| m.contains('(')
                    ||| m.contains(')')
                }
            }
        },
        match_spec(seq![l], before + m + after) matches Some(k) ==> k == l,
{
    law_strip_leaves_what_is_between(before, m, after, Edge::Label);
    let r = before + m + after;
    lemma_first_where_in_one(l, |k: Language| is_labelled(k, r));
}

/// A plain name, one that begins and ends in a letter, matches itself in any case.
pub proof fn law_plain_name_matches(l: Language, before: Seq<char>, m: Seq<char>, after: Seq<char>)
    requires
        forall|i: int| 0 <= i < before.len() ==> drops(Edge::Label, #[trigger] before[i]),
        forall|i: int| 0 <= i < after.len() ==> drops(Edge::Label, #[trigger] after[i]),
        m.len() > 0,
        !drops(Edge::Label, m[0]),
        !drops(Edge::Label, m[m.len() - 1]),
        l.name@.len() > 0,
        !drops(Edge::Label, l.name@[0]),
        !drops(Edge::Label, l.name@[l.name@.len() - 1]),
    ensures
        match_spec(seq![l], before + m + after) is Some <==> lowercase(m) == l.internal_code@
            || lowercase(m) == lowercase(l.code@) || lowercase(m) == lowercase(l.name@),
{
    law_what_matches(l, before, m, after);
    let none = Seq::<char>::empty();
    law_strip_leaves_what_is_between(none, l.name@, none, Edge::Label);
    assert(none + l.name@ + none =~= l.name@);
    assert(before.skip(before.len() as int) =~= none);
    assert(after.take(0) =~= none);
}

/// A score is an integer from 0 to 100 in digits, with a plus sign or none; with a minus sign only
/// zero; and nothing else is a score.
pub proof fn law_scores(digits: Seq<char>, word: Seq<char>)
    requires
        digits.len() > 0,
        forall|i: int| 0 <= i < digits.len() ==> '0' <= #[trigger] digits[i] <= '9',
    ensures
        numeral_value(digits) <= 100 ==> score_spec(digits) == Some(numeral_value(digits))
            && score_spec(seq!['+'] + digits) == Some(numeral_value(digits)),
        numeral_value(digits) > 100 ==> score_spec(digits) is None && score_spec(
            seq!['+'] + digits,
        ) is None,
        numeral_value(digits) == 0 ==> score_spec(seq!['-'] + digits) == Some(0int),
        numeral_value(digits) != 0 ==> score_spec(seq!['-'] + digits) is None,
        word.len() == 0 ==> score_spec(word) is None,
        word.len() == 1 && !('0' <= word[0] <= '9') ==> score_spec(word) is None,
        word.len() > 0 && word[0] != '+' && word[0] != '-' && !('0' <= word[0] <= '9')
            ==> score_spec(word) is None,
        (exists|i: int| 1 <= i < word.len() && !('0' <= #[trigger] word[i] <= '9')) ==> score_spec(
            word,
        ) is None,
{
    let plus = seq!['+'] + digits;
    let minus = seq!['-'] + digits;
    assert(plus.skip(1) =~= digits);
    assert(minus.skip(1) =~= digits);
    assert('0' <= digits[0] <= '9');
    if exists|i: int| 1 <= i < word.len() && !('0' <= #[trigger] word[i] <= '9') {
        let i = choose|i: int| 1 <= i < word.len() && !('0' <= #[trigger] word[i] <= '9');
        assert(word.skip(1)[i - 1] == word[i]);
    }
}

/// The last word of an answer is its score where it is one; the words before it are the language.
/// Else all of the answer, trimmed, is the language and the confidence is 100.
pub proof fn law_language_and_score(
    languages: Seq<Language>,
    label: Seq<char>,
    space: char,
    word: Seq<char>,
    after: Seq<char>,
)
    requires
        is_white_space(space),
        word.len() > 0,
        forall|i: int| 0 <= i < word.len() ==> !is_white_space(#[trigger] word[i]),
        forall|i: int| 0 <= i < after.len() ==> is_white_space(#[trigger] after[i]),
    ensures
        ({
            let answer = label.push(space) + (word + after);
            &&& score_spec(word) matches Some(score) ==> detection_spec(languages, answer)
                == match match_spec(languages, join_spec(words_spec(label))) {
                Some(l) => Some((l, score)),
                None => None,
            }
            &&& score_spec(word) is None ==> detection_spec(languages, answer) == match match_spec(
                languages,
                trim_spec(answer),
            ) {
                Some(l) => Some((l, 100int)),
                None => None,
            }
        }),
{
    let answer = label.push(space) + (word + after);
    law_words(label, space, word + after);
    law_words(word, space, Seq::empty());
    if after.len() == 0 {
        assert(word + after =~= word);
    } else {
        let rest = after.skip(1);
        assert(word + after =~= word.push(after[0]) + rest);
        law_words(word, after[0], rest);
        assert forall|i: int| 0 <= i < rest.len() implies is_white_space(#[trigger] rest[i]) by {
            assert(rest[i] == after[i + 1]);
        }
        lemma_blank_has_no_words(rest);
        assert(seq![word] + Seq::<Seq<char>>::empty() =~= seq![word]);
    }
    let ws = words_spec(answer);
    assert(ws =~= words_spec(label).push(word));
    assert(ws.last() == word);
    assert(ws.drop_last() =~= words_spec(label));
}

proof fn lemma_blank_has_no_words(s: Seq<char>)
    requires
        forall|i: int| 0 <= i < s.len() ==> is_white_space(#[trigger] s[i]),
    ensures
        words_spec(s) == Seq::<Seq<char>>::empty(),
{
    crate::text::lemma_strip_start_is(s, Edge::Space, s.len() as int);
}

/// An answer of one word that is a score names no language; any other single word is a language with
/// confidence 100. White space behind it makes no difference, and a blank answer names nothing.
pub proof fn law_single_word(languages: Seq<Language>, word: Seq<char>, after: Seq<char>)
    requires
        word.len() > 0,
        forall|i: int| 0 <= i < word.len() ==> !is_white_space(#[trigger] word[i]),
        forall|i: int| 0 <= i < after.len() ==> is_white_space(#[trigger] after[i]),
    ensures
        score_spec(word) is None ==> label_and_score(word + after) == (word, 100int),
        score_spec(word) matches Some(score) ==> label_and_score(word + after) == (
            Seq::<char>::empty(),
            score,
        ),
        label_and_score(after) == (Seq::<char>::empty(), 100int),
        score_spec(word) is None ==> detection_spec(languages, word + after) == match match_spec(
            languages,
            word,
        ) {
            Some(l) => Some((l, 100int)),
            None => None,
        },
{
    law_words(word, ' ', Seq::empty());
    let none = Seq::<char>::empty();
    law_strip_leaves_what_is_between(none, word, after, Edge::Space);
    assert(none + word + after =~= word + after);
    law_strip_leaves_what_is_between(after, none, none, Edge::Space);
    assert(after + none + none =~= after);
    lemma_blank_has_no_words(after);
    if after.len() == 0 {
        assert(word + after =~= word);
    } else {
        let rest = after.skip(1);
        assert(word + after =~= word.push(after[0]) + rest);
        law_words(word, after[0], rest);
        assert forall|i: int| 0 <= i < rest.len() implies is_white_space(#[trigger] rest[i]) by {
            assert(rest[i] == after[i + 1]);
        }
        lemma_blank_has_no_words(rest);
        assert(seq![word] + Seq::<Seq<char>>::empty() =~= seq![word]);
    }
    assert(words_spec(word + after) =~= seq![word]);
    assert(words_spec(word + after).drop_last() =~= Seq::<Seq<char>>::empty());
}

/// A response without anything in it matches no language that has a name and codes.
pub proof fn law_nothing_names_nothing(l: Language, response: Seq<char>)
    requires
        forall|i: int| 0 <= i < response.len() ==> drops(Edge::Label, #[trigger] response[i]),
        l.internal_code@.len() > 0,
        lowercase(l.code@).len() > 0,
        lowercase(strip(l.name@, Edge::Label)).len() > 0,
    ensures
        match_spec(seq![l], response) is None,
{
    let none = Seq::<char>::empty();
    law_strip_leaves_what_is_between(response, none, none, Edge::Label);
    assert(response + none + none =~= response);
    assert(lowercase(none).len() == 0);
    lemma_first_where_in_one(l, |k: Language| is_labelled(k, response));
}

} // verus!
