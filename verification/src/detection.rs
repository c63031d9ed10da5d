//! Reading the language that a model names when it is asked to detect one.

use vstd::prelude::*;

use crate::args::Args;
use crate::languages::{LangDetect, Language};
use crate::text;
use crate::text::Edge;

verus! {

/// The form in which a language label is compared: without quotes, parentheses and white space
/// round it, in lowercase.
pub open spec fn label_spec(s: Seq<char>) -> Seq<char> {
    crate::std_text::lowercase(text::strip(s, Edge::Label))
}

/// Whether a name has quotes, parentheses or white space at an end, as `Portuguese (Brazil)` has.
pub open spec fn has_edges(name: Seq<char>) -> bool {
    text::lead(name, Edge::Label).len() > 0 || text::tail(name, Edge::Label).len() > 0
}

/// Whether a parenthesis is in `s`.
pub open spec fn has_parenthesis(s: Seq<char>) -> bool {
    s.contains('(') || s.contains(')')
}

/// What is left of `s` without quotes, parentheses and white space round it.
pub open spec fn inside(s: Seq<char>) -> Seq<char> {
    text::strip(s, Edge::Label)
}

/// Whether `response` and `name` are the same inside, but for the case of letters. Where the name
/// has such characters at an end, a parenthesis that is inside it has to be there too.
pub open spec fn same_inside(name: Seq<char>, response: Seq<char>) -> bool {
    &&& label_spec(name) == label_spec(response)
    &&& has_edges(name) && has_parenthesis(inside(name)) ==> has_parenthesis(inside(response))
}

/// Whether `response` is `name`, but for the case of letters and for quotes, parentheses and white
/// space round it. Those that belong to the name have to be there.
pub open spec fn is_name(name: Seq<char>, response: Seq<char>) -> bool {
    &&& same_inside(name, response)
    &&& text::ends_in(text::lead(response, Edge::Label), text::lead(name, Edge::Label))
    &&& text::begins_with(text::tail(response, Edge::Label), text::tail(name, Edge::Label))
}

/// Whether `response` is the name or a code of `l`.
pub open spec fn is_labelled(l: Language, response: Seq<char>) -> bool {
    ||| is_name(l.name@, response)
    ||| l.internal_code@ == label_spec(response)
    ||| crate::std_text::lowercase(l.code@) == label_spec(response)
}

/// The first language of the table that `response` names.
pub open spec fn match_spec(languages: Seq<Language>, response: Seq<char>) -> Option<Language> {
    crate::languages::first_where(languages, |l: Language| is_labelled(l, response))
}

/// A confidence score that a word writes: an integer from 0 to 100, with an optional sign.
pub open spec fn score_spec(word: Seq<char>) -> Option<int> {
    let signed = word.len() > 0 && (word[0] == '+' || word[0] == '-');
    let digits = if signed {
        word.skip(1)
    } else {
        word
    };
    let value = text::numeral_value(digits);
    if text::is_numeral(digits) && value <= 100 && (signed && word[0] == '-' ==> value == 0) {
        Some(value)
    } else {
        None
    }
}

/// The language label and the score of a response: the score is its last word, where that is one,
/// and the label is the words before it; else the label is all of it and the score is 100.
pub open spec fn label_and_score(response: Seq<char>) -> (Seq<char>, int) {
    let ws = text::words_spec(response);
    if ws.len() > 0 && score_spec(ws.last()) is Some {
        (text::join_spec(ws.drop_last()), score_spec(ws.last())->0)
    } else {
        (text::trim_spec(response), 100)
    }
}

/// The language and the confidence that a response gives, if it names a known language.
pub open spec fn detection_spec(languages: Seq<Language>, response: Seq<char>) -> Option<
    (Language, int),
> {
    let (label, score) = label_and_score(response);
    match match_spec(languages, label) {
        Some(l) => Some((l, score)),
        None => None,
    }
}

fn holds_parenthesis(s: &str) -> (r: bool)
    ensures
        r == has_parenthesis(s@),
{
    let chars = text::chars_of(s);
    let mut i: usize = 0;
    while i < chars.len()
        invariant
            i <= chars.len(),
            chars@ == s@,
            forall|j: int| 0 <= j < i ==> #[trigger] s@[j] != '(' && s@[j] != ')',
        decreases chars.len() - i,
    {
        if chars[i] == '(' || chars[i] == ')' {
            assert(s@.contains(s@[i as int]));
            return true;
        }
        i = i + 1;
    }
    false
}

/// Matches a language name or code in free text to the known languages.
///
/// Only quotes, parentheses and white space round the text are set aside, and not those that belong
/// to the name, so that a name such as `Portuguese (Brazil)` still matches.
pub fn match_language<'a>(languages: &'a [Language], response: &str) -> (r: Option<&'a Language>)
    ensures
        r matches Some(l) ==> match_spec(languages@, response@) == Some(*l),
        r is None ==> match_spec(languages@, response@) is None,
{
    let (before, inner, after) = text::parts(response, Edge::Label);
    let cleaned = inner.as_str().to_lowercase();
    let parenthesis: bool = holds_parenthesis(inner.as_str());
    let ghost p = |l: Language| is_labelled(l, response@);
    let mut i: usize = 0;
    while i < languages.len()
        invariant
            i <= languages@.len(),
            before@ == text::lead(response@, Edge::Label),
            after@ == text::tail(response@, Edge::Label),
            cleaned@ == label_spec(response@),
            parenthesis == has_parenthesis(inside(response@)),
            p == (|l: Language| is_labelled(l, response@)),
            forall|j: int| 0 <= j < i ==> !p(#[trigger] languages@[j]),
        decreases languages@.len() - i,
    {
        let l: &'a Language = &languages[i];
        let (name_before, name, name_after) = text::parts(l.name, Edge::Label);
        let edges: bool = !name_before.as_str().is_empty() || !name_after.as_str().is_empty();
        let named: bool = text::same(name.as_str().to_lowercase().as_str(), cleaned.as_str()) && (
        parenthesis || !edges || !holds_parenthesis(name.as_str())) && text::has_suffix(
            before.as_str(),
            name_before.as_str(),
        ) && text::has_prefix(after.as_str(), name_after.as_str());
        let coded: bool = text::same(l.internal_code, cleaned.as_str()) || text::same(
            l.code.to_lowercase().as_str(),
            cleaned.as_str(),
        );
        if named || coded {
            proof {
                crate::languages::lemma_first_where(languages@, p, i as int);
            }
            return Some(l);
        }
        i = i + 1;
    }
    proof {
        crate::languages::lemma_first_where(languages@, p, languages@.len() as int);
    }
    None
}

proof fn lemma_numeral_value_grows(s: Seq<char>, n: int)
    requires
        0 <= n <= s.len(),
        forall|i: int| 0 <= i < s.len() ==> text::is_digit(#[trigger] s[i]),
    ensures
        0 <= text::numeral_value(s.take(n)) <= text::numeral_value(s),
    decreases s.len(),
{
    if n == s.len() {
        assert(s.take(n) == s);
        if s.len() > 0 {
            lemma_numeral_value_grows(s.drop_last(), n - 1);
            assert(s.last() == s[s.len() - 1]);
        }
    } else {
        lemma_numeral_value_grows(s.drop_last(), n);
        assert(s.drop_last().take(n) == s.take(n));
        assert(s.last() == s[s.len() - 1]);
    }
}

/// The confidence score that a word writes.
fn score(word: &str) -> (r: Option<i32>)
    ensures
        r matches Some(v) ==> score_spec(word@) == Some(v as int),
        r is None ==> score_spec(word@) is None,
{
    let chars = text::chars_of(word);
    let signed: bool = chars.len() > 0 && (chars[0] == '+' || chars[0] == '-');
    let from: usize = if signed {
        1
    } else {
        0
    };
    let ghost digits = if signed {
        word@.skip(1)
    } else {
        word@
    };
    let mut value: i32 = 0;
    let mut i: usize = from;
    if from == chars.len() {
        return None;
    }
    while i < chars.len()
        invariant
            from <= i <= chars.len(),
            from <= 1,
            chars@ == word@,
            signed == (word@.len() > 0 && (word@[0] == '+' || word@[0] == '-')),
            digits == if signed {
                word@.skip(1)
            } else {
                word@
            },
            digits.len() == chars.len() - from,
            forall|j: int| 0 <= j < digits.len() ==> digits[j] == chars@[j + from],
            forall|j: int| 0 <= j < i - from ==> text::is_digit(#[trigger] digits[j]),
            0 <= value <= 101,
            value <= 100 ==> value == text::numeral_value(digits.take(i - from)),
            value == 101 ==> text::numeral_value(digits.take(i - from)) > 100,
        decreases chars.len() - i,
    {
        let c: char = chars[i];
        assert(digits[i - from] == c);
        if !('0' <= c && c <= '9') {
            assert(!text::is_digit(digits[i - from]));
            return None;
        }
        let d: i32 = (c as u32 - 48) as i32;
        proof {
            let next = digits.take(i + 1 - from);
            assert(next.drop_last() == digits.take(i - from));
            assert(next.last() == c);
        }
        value = if value > 100 || 10 * value + d > 100 {
            101
        } else {
            10 * value + d
        };
        i = i + 1;
    }
    proof {
        assert(digits.take(digits.len() as int) == digits);
        lemma_numeral_value_grows(digits, 0);
    }
    if value > 100 || (signed && chars[0] == '-' && value != 0) {
        None
    } else {
        Some(value)
    }
}

/// Reads the language and the confidence in percent from the answer of a model.
///
/// The expected form is `<language> <score>` with a score from 0 to 100. Without a score the
/// confidence is 100.
pub fn parse_detection_response<'a>(languages: &'a [Language], response: &str) -> (r: Option<
    (&'a Language, i32),
>)
    ensures
        r matches Some(d) ==> detection_spec(languages@, response@) == Some((*d.0, d.1 as int)),
        r is None ==> detection_spec(languages@, response@) is None,
{
    let parts = text::words(response);
    let ghost ws = text::words_spec(response@);
    let mut confidence: i32 = 100;
    let mut name = text::trim(response);
    if parts.len() > 0 {
        let before: usize = parts.len() - 1;
        assert(ws.last() == parts@[before as int]@);
        if let Some(s) = score(parts[before].as_str()) {
            confidence = s;
            name = text::join(&parts, before);
            assert(text::texts(parts@).take(before as int) == ws.drop_last());
        }
    }
    match match_language(languages, name.as_str()) {
        Some(l) => Some((l, confidence)),
        None => None,
    }
}

/// A detector that asks the model. Where the model does not answer or names no known language, the
/// statistical detector answers.
pub struct LlmDetector<'a> {
    pub languages: &'a [Language],
}

impl<'a> LlmDetector<'a> {
    /// A detector for the languages of a table.
    pub fn new(languages: &'a [Language]) -> (r: Self)
        ensures
            r.languages == languages,
    {
        LlmDetector { languages }
    }

    /// The detected language: what the answer of the model says or, exactly where there is no answer
    /// or it names no known language, what the statistical detector found.
    pub fn detect(&self, answer: Option<&str>, fallback: LangDetect<'a>) -> (r: LangDetect<'a>)
        ensures
            match (match answer {
                Some(a) => detection_spec(self.languages@, a@),
                None => None,
            }) {
                Some((l, c)) => *r.language == l && r.confidence == c,
                None => r == fallback,
            },
    {
        match self.read(answer) {
            Some(found) => found,
            None => fallback,
        }
    }

    /// What the answer of the model says, where there is an answer and it names a known language.
    pub fn read(&self, answer: Option<&str>) -> (r: Option<LangDetect<'a>>)
        ensures
            answer is None ==> r is None,
            answer matches Some(a) ==> match detection_spec(self.languages@, a@) {
                Some((l, c)) => r matches Some(d) && *d.language == l && d.confidence == c,
                None => r is None,
            },
    {
        match answer {
            Some(a) => match parse_detection_response(self.languages, a) {
                Some((language, confidence)) => Some(LangDetect { language, confidence }),
                None => None,
            },
            None => None,
        }
    }
}

/// Which detector answers.
#[derive(Clone, Copy, Debug, PartialEq, Eq, Structural)]
pub enum Detector {
    /// The model, with the statistical detector behind it.
    Llm,
    /// The statistical detector.
    Whatlang,
}

/// The detector that the settings ask for.
pub fn create_detector(args: &Args) -> (r: Detector)
    ensures
        r is Llm <==> args.llm_detect,
{
    if args.llm_detect {
        Detector::Llm
    } else {
        Detector::Whatlang
    }
}

/// A confidence is always from 0 to 100.
pub proof fn law_confidence_is_a_percentage(languages: Seq<Language>, response: Seq<char>)
    ensures
        0 <= label_and_score(response).1 <= 100,
        detection_spec(languages, response) matches Some(d) ==> 0 <= d.1 <= 100,
{
    let ws = text::words_spec(response);
    if ws.len() > 0 && score_spec(ws.last()) is Some {
        let word = ws.last();
        let digits = if word.len() > 0 && (word[0] == '+' || word[0] == '-') {
            word.skip(1)
        } else {
            word
        };
        lemma_numeral_value_grows(digits, 0);
    }
}

/// Every language of a table is matched by its own name, parentheses in it and all, or a
/// language before it in the table has that name or code too.
pub proof fn law_names_match(languages: Seq<Language>, i: int)
    requires
        0 <= i < languages.len(),
    ensures
        match_spec(languages, languages[i].name@) matches Some(l) && is_labelled(
            l,
            languages[i].name@,
        ) && languages.contains(l),
        (forall|j: int|
            0 <= j < i ==> !is_labelled(#[trigger] languages[j], languages[i].name@))
            ==> match_spec(languages, languages[i].name@) == Some(languages[i]),
{
    let name = languages[i].name@;
    let p = |l: Language| is_labelled(l, name);
    let e = Edge::Label;
    assert(text::lead(name, e).skip(0) == text::lead(name, e));
    assert(text::tail(name, e).take(text::tail(name, e).len() as int) == text::tail(name, e));
    assert(p(languages[i]));
    crate::languages::lemma_first_where_found(languages, p);
    if forall|j: int| 0 <= j < i ==> !is_labelled(#[trigger] languages[j], name) {
        assert forall|j: int| 0 <= j < i implies !p(#[trigger] languages[j]) by {}
        crate::languages::lemma_first_where(languages, p, i);
    }
}

/// Whether two texts differ in the case of ASCII letters alone.
pub open spec fn same_but_for_ascii_case(a: Seq<char>, b: Seq<char>) -> bool {
    &&& a.len() == b.len()
    &&& forall|i: int|
        0 <= i < a.len() ==> crate::std_text::ascii_lower(#[trigger] a[i])
            == crate::std_text::ascii_lower(b[i])
}

proof fn lemma_parts_of_surrounded(before: Seq<char>, response: Seq<char>, after: Seq<char>)
    requires
        forall|i: int| 0 <= i < before.len() ==> text::drops(Edge::Label, #[trigger] before[i]),
        forall|i: int| 0 <= i < after.len() ==> text::drops(Edge::Label, #[trigger] after[i]),
    ensures
        inside(before + response + after) == inside(response),
        inside(response).len() > 0 ==> {
            &&& text::lead(before + response + after, Edge::Label) == before + text::lead(
                response,
                Edge::Label,
            )
            &&& text::tail(before + response + after, Edge::Label) == text::tail(
                response,
                Edge::Label,
            ) + after
        },
{
    let e = Edge::Label;
    let s = before + response + after;
    let t = text::strip_start(response, e);
    text::lemma_strip_start(response, e);
    text::lemma_strip_end(t, e);
    let k = response.len() - t.len();
    if t.len() == 0 {
        assert forall|i: int| 0 <= i < s.len() implies text::drops(e, #[trigger] s[i]) by {
            if i < before.len() {
                assert(s[i] == before[i]);
            } else if i < before.len() + response.len() {
                assert(s[i] == response[i - before.len()]);
            } else {
                assert(s[i] == after[i - before.len() - response.len()]);
            }
        }
        text::lemma_strip_start_is(s, e, s.len() as int);
        assert(s.skip(s.len() as int) == t);
    } else {
        let m = before.len() + k;
        assert forall|i: int| 0 <= i < m implies text::drops(e, #[trigger] s[i]) by {
            if i < before.len() {
                assert(s[i] == before[i]);
            } else {
                assert(s[i] == response[i - before.len()]);
            }
        }
        assert(s[m] == response[k]);
        assert(t[0] == response[k]);
        text::lemma_strip_start_is(s, e, m);
        let u = s.skip(m);
        assert(u == t + after);
        let n = text::strip_end(t, e).len() as int;
        assert(n > 0) by {
            if n == 0 {
                assert(text::drops(e, t[0]));
            }
        }
        assert forall|i: int| n <= i < u.len() implies text::drops(e, #[trigger] u[i]) by {
            if i < t.len() {
                assert(u[i] == t[i]);
            } else {
                assert(u[i] == after[i - t.len()]);
            }
        }
        assert(u[n - 1] == t[n - 1]);
        assert(t.take(n).last() == t[n - 1]);
        text::lemma_strip_end_is(u, e, n);
        assert(u.take(n) == t.take(n));
        assert(text::lead(s, e) =~= before + text::lead(response, e));
        assert(text::tail(s, e) =~= text::tail(response, e) + after);
    }
}

proof fn lemma_lowercase_ignores_ascii_case(a: Seq<char>, b: Seq<char>)
    requires
        same_but_for_ascii_case(a, b),
    ensures
        crate::std_text::lowercase(a) == crate::std_text::lowercase(b),
{
    assert forall|i: int| 0 <= i < a.len() implies crate::std_text::is_ascii_char(#[trigger] a[i])
        == crate::std_text::is_ascii_char(b[i]) by {
        assert(crate::std_text::ascii_lower(a[i]) == crate::std_text::ascii_lower(b[i]));
    }
    if crate::std_text::is_ascii_text(a) {
        assert forall|i: int| 0 <= i < b.len() implies crate::std_text::is_ascii_char(
            #[trigger] b[i],
        ) by {
            assert(crate::std_text::is_ascii_char(a[i]));
        }
    }
    if crate::std_text::is_ascii_text(b) {
        assert forall|i: int| 0 <= i < a.len() implies crate::std_text::is_ascii_char(
            #[trigger] a[i],
        ) by {
            assert(crate::std_text::is_ascii_char(b[i]));
        }
    }
    assert(crate::std_text::ascii_lowered(a) =~= crate::std_text::ascii_lowered(b));
}

proof fn lemma_parts_ignore_case(a: Seq<char>, b: Seq<char>)
    requires
        same_but_for_ascii_case(a, b),
    ensures
        text::lead(a, Edge::Label) == text::lead(b, Edge::Label),
        text::tail(a, Edge::Label) == text::tail(b, Edge::Label),
        label_spec(a) == label_spec(b),
        has_parenthesis(inside(a)) == has_parenthesis(inside(b)),
{
    let e = Edge::Label;
    assert forall|i: int| 0 <= i < a.len() implies text::drops(e, #[trigger] a[i]) == text::drops(
        e,
        b[i],
    ) && (text::drops(e, a[i]) ==> a[i] == b[i]) by {
        assert(crate::std_text::ascii_lower(a[i]) == crate::std_text::ascii_lower(b[i]));
    }
    let ta = text::strip_start(a, e);
    text::lemma_strip_start(a, e);
    let k = a.len() - ta.len();
    if k < a.len() {
        assert(ta[0] == a[k]);
    }
    assert forall|i: int| 0 <= i < k implies text::drops(e, #[trigger] b[i]) by {
        assert(text::drops(e, a[i]));
    }
    text::lemma_strip_start_is(b, e, k);
    let tb = b.skip(k);
    text::lemma_strip_end(ta, e);
    let n = text::strip_end(ta, e).len() as int;
    assert forall|i: int| n <= i < tb.len() implies text::drops(e, #[trigger] tb[i]) by {
        assert(text::drops(e, ta[i]));
        assert(ta[i] == a[i + k]);
        assert(tb[i] == b[i + k]);
    }
    if n > 0 {
        assert(ta.take(n).last() == ta[n - 1]);
        assert(ta[n - 1] == a[n - 1 + k]);
        assert(tb[n - 1] == b[n - 1 + k]);
    }
    text::lemma_strip_end_is(tb, e, n);
    let x = ta.take(n);
    let y = tb.take(n);
    assert forall|i: int| 0 <= i < n implies crate::std_text::ascii_lower(#[trigger] x[i])
        == crate::std_text::ascii_lower(y[i]) by {
        assert(x[i] == a[i + k]);
        assert(y[i] == b[i + k]);
    }
    lemma_lowercase_ignores_ascii_case(x, y);
    assert(has_parenthesis(x) == has_parenthesis(y)) by {
        if has_parenthesis(x) {
            let i = choose|i: int| 0 <= i < n && (x[i] == '(' || x[i] == ')');
            assert(y[i] == x[i]);
            assert(y.contains(y[i]));
        }
        if has_parenthesis(y) {
            let i = choose|i: int| 0 <= i < n && (y[i] == '(' || y[i] == ')');
            assert(crate::std_text::ascii_lower(x[i]) == y[i]);
            assert(x[i] == y[i]);
            assert(x.contains(x[i]));
        }
    }
    assert(text::lead(a, e) =~= text::lead(b, e)) by {
        assert forall|i: int| 0 <= i < k implies a[i] == b[i] by {
            assert(text::drops(e, a[i]));
        }
    }
    assert(text::tail(a, e) =~= text::tail(b, e)) by {
        assert forall|i: int| n <= i < ta.len() implies ta[i] == tb[i] by {
            assert(text::drops(e, ta[i]));
            assert(ta[i] == a[i + k]);
            assert(tb[i] == b[i + k]);
        }
    }
}

proof fn lemma_same_labels(languages: Seq<Language>, a: Seq<char>, b: Seq<char>)
    requires
        forall|i: int|
            0 <= i < languages.len() ==> is_labelled(#[trigger] languages[i], a) == is_labelled(
                languages[i],
                b,
            ),
    ensures
        match_spec(languages, a) == match_spec(languages, b),
    decreases languages.len(),
{
    if languages.len() > 0 {
        let rest = languages.drop_first();
        assert(languages.first() == languages[0]);
        assert forall|i: int| 0 <= i < rest.len() implies is_labelled(#[trigger] rest[i], a)
            == is_labelled(rest[i], b) by {
            assert(rest[i] == languages[i + 1]);
        }
        lemma_same_labels(rest, a, b);
    }
}

/// Two responses that differ in the case of ASCII letters alone match the same language.
pub proof fn law_case_does_not_matter(languages: Seq<Language>, a: Seq<char>, b: Seq<char>)
    requires
        same_but_for_ascii_case(a, b),
    ensures
        match_spec(languages, a) == match_spec(languages, b),
{
    lemma_parts_ignore_case(a, b);
    lemma_same_labels(languages, a, b);
}

/// Quotes, parentheses and white space round a response, and the case of its ASCII letters, do not
/// change what it matches; unless the response is the inside of a name that has such characters of
/// its own at an end, which they may make whole.
pub proof fn law_surroundings_do_not_matter(
    languages: Seq<Language>,
    before: Seq<char>,
    response: Seq<char>,
    after: Seq<char>,
)
    requires
        forall|i: int| 0 <= i < before.len() ==> text::drops(Edge::Label, #[trigger] before[i]),
        forall|i: int| 0 <= i < after.len() ==> text::drops(Edge::Label, #[trigger] after[i]),
        forall|i: int|
            0 <= i < languages.len() && has_edges((#[trigger] languages[i]).name@) ==> !same_inside(
                languages[i].name@,
                response,
            ),
    ensures
        match_spec(languages, before + response + after) == match_spec(languages, response),
        match_spec(languages, before + crate::std_text::ascii_uppered(response) + after)
            == match_spec(languages, response),
{
    let e = Edge::Label;
    let s = before + response + after;
    lemma_parts_of_surrounded(before, response, after);
    assert forall|i: int| 0 <= i < languages.len() implies is_labelled(#[trigger] languages[i], s)
        == is_labelled(languages[i], response) by {
        let name = languages[i].name@;
        if !has_edges(name) {
            assert(text::lead(s, e).skip(text::lead(s, e).len() as int) =~= text::lead(name, e));
            assert(text::lead(response, e).skip(text::lead(response, e).len() as int)
                =~= text::lead(name, e));
            assert(text::tail(s, e).take(0) =~= text::tail(name, e));
            assert(text::tail(response, e).take(0) =~= text::tail(name, e));
        }
    }
    lemma_same_labels(languages, s, response);
    let upper = before + crate::std_text::ascii_uppered(response) + after;
    assert forall|i: int| 0 <= i < upper.len() implies crate::std_text::ascii_lower(
        #[trigger] upper[i],
    ) == crate::std_text::ascii_lower(s[i]) by {
        if before.len() <= i < before.len() + response.len() {
            let c = response[i - before.len()];
            assert(upper[i] == crate::std_text::ascii_upper(c));
            assert(s[i] == c);
        }
    }
    law_case_does_not_matter(languages, upper, s);
}

/// Whether every name of a table that has quotes, parentheses or white space at an end has a
/// parenthesis inside, as `Portuguese (Brazil)` has.
pub open spec fn edges_are_parenthetical(languages: Seq<Language>) -> bool {
    forall|i: int|
        0 <= i < languages.len() && has_edges((#[trigger] languages[i]).name@) ==> has_parenthesis(
            inside(languages[i].name@),
        )
}

/// A response without parentheses matches the same language in any surroundings and in either case
/// of its ASCII letters, in a table where names have such characters at an end only round a
/// parenthesis.
pub proof fn law_plain_responses_match_anywhere(
    languages: Seq<Language>,
    before: Seq<char>,
    response: Seq<char>,
    after: Seq<char>,
)
    requires
        forall|i: int| 0 <= i < before.len() ==> text::drops(Edge::Label, #[trigger] before[i]),
        forall|i: int| 0 <= i < after.len() ==> text::drops(Edge::Label, #[trigger] after[i]),
        edges_are_parenthetical(languages),
        !has_parenthesis(response),
    ensures
        match_spec(languages, before + crate::std_text::ascii_uppered(response) + after)
            == match_spec(languages, response),
{
    let t = text::strip_start(response, Edge::Label);
    let u = inside(response);
    text::lemma_strip_start(response, Edge::Label);
    text::lemma_strip_end(t, Edge::Label);
    let k = response.len() - t.len();
    assert forall|i: int| 0 <= i < u.len() implies #[trigger] u[i] != '(' && u[i] != ')' by {
        assert(u[i] == response[i + k]);
        assert(response.contains(response[i + k]));
    }
    law_surroundings_do_not_matter(languages, before, response, after);
}

/// Whether no name of a table begins or ends in white space, or is made of quotes and parentheses
/// alone.
pub open spec fn names_are_trimmed(languages: Seq<Language>) -> bool {
    forall|i: int| 0 <= i < languages.len() ==> is_trimmed_name((#[trigger] languages[i]).name@)
}

/// Whether a name neither begins nor ends in white space and, unless it is empty, has a label.
pub open spec fn is_trimmed_name(name: Seq<char>) -> bool {
    name.len() > 0 ==> {
        &&& label_spec(name).len() > 0
        &&& !text::is_white_space(name.first())
        &&& !text::is_white_space(name.last())
    }
}

proof fn lemma_suffix_behind_white_space(w: Seq<char>, x: Seq<char>, p: Seq<char>)
    requires
        forall|i: int| 0 <= i < w.len() ==> text::is_white_space(#[trigger] w[i]),
        p.len() > 0 ==> !text::is_white_space(p[0]),
    ensures
        text::ends_in(w + x, p) == text::ends_in(x, p),
{
    let s = w + x;
    if p.len() <= x.len() {
        assert(s.skip(s.len() - p.len()) == x.skip(x.len() - p.len()));
    } else if text::ends_in(s, p) {
        assert(p[0] == s[s.len() - p.len()]);
        assert(s[s.len() - p.len()] == w[s.len() - p.len()]);
    }
}

proof fn lemma_prefix_before_white_space(x: Seq<char>, w: Seq<char>, p: Seq<char>)
    requires
        forall|i: int| 0 <= i < w.len() ==> text::is_white_space(#[trigger] w[i]),
        p.len() > 0 ==> !text::is_white_space(p.last()),
    ensures
        text::begins_with(x + w, p) == text::begins_with(x, p),
{
    let s = x + w;
    if p.len() <= x.len() {
        assert(s.take(p.len() as int) == x.take(p.len() as int));
    } else if text::begins_with(s, p) {
        assert(p.last() == s[p.len() - 1]);
        assert(s[p.len() - 1] == w[p.len() - 1 - x.len()]);
    }
}

proof fn lemma_name_ignores_white_space(
    name: Seq<char>,
    before: Seq<char>,
    response: Seq<char>,
    after: Seq<char>,
)
    requires
        is_trimmed_name(name),
        forall|i: int| 0 <= i < before.len() ==> text::is_white_space(#[trigger] before[i]),
        forall|i: int| 0 <= i < after.len() ==> text::is_white_space(#[trigger] after[i]),
    ensures
        is_name(name, before + response + after) == is_name(name, response),
        label_spec(before + response + after) == label_spec(response),
{
    let e = Edge::Label;
    let s = before + response + after;
    assert forall|i: int| 0 <= i < before.len() implies text::drops(e, #[trigger] before[i]) by {
        assert(text::is_white_space(before[i]));
    }
    assert forall|i: int| 0 <= i < after.len() implies text::drops(e, #[trigger] after[i]) by {
        assert(text::is_white_space(after[i]));
    }
    lemma_parts_of_surrounded(before, response, after);
    let t = text::strip_start(name, e);
    text::lemma_strip_start(name, e);
    text::lemma_strip_end(t, e);
    let l = text::lead(name, e);
    let r = text::tail(name, e);
    if l.len() > 0 {
        assert(l[0] == name[0]);
    }
    if r.len() > 0 {
        assert(r.last() == t.last());
        assert(t.last() == name.last());
    }
    if inside(response).len() > 0 {
        lemma_suffix_behind_white_space(before, text::lead(response, e), l);
        lemma_prefix_before_white_space(text::tail(response, e), after, r);
    } else {
        assert(label_spec(response).len() == 0);
        if name.len() == 0 {
            assert(text::lead(s, e).skip(text::lead(s, e).len() as int) =~= l);
            assert(text::lead(response, e).skip(text::lead(response, e).len() as int) =~= l);
            assert(text::tail(s, e).take(0) =~= r);
            assert(text::tail(response, e).take(0) =~= r);
        }
    }
}

/// White space round a response does not change what it matches, names such as
/// `Portuguese (Brazil)` included, in a table of trimmed names.
pub proof fn law_white_space_does_not_matter(
    languages: Seq<Language>,
    before: Seq<char>,
    response: Seq<char>,
    after: Seq<char>,
)
    requires
        names_are_trimmed(languages),
        forall|i: int| 0 <= i < before.len() ==> text::is_white_space(#[trigger] before[i]),
        forall|i: int| 0 <= i < after.len() ==> text::is_white_space(#[trigger] after[i]),
    ensures
        match_spec(languages, before + response + after) == match_spec(languages, response),
{
    let s = before + response + after;
    assert forall|i: int| 0 <= i < languages.len() implies is_labelled(#[trigger] languages[i], s)
        == is_labelled(languages[i], response) by {
        lemma_name_ignores_white_space(languages[i].name@, before, response, after);
    }
    lemma_same_labels(languages, s, response);
}

/// A response matches what it matches when trimmed, in a table of trimmed names.
pub proof fn law_trimming_does_not_matter(languages: Seq<Language>, response: Seq<char>)
    requires
        names_are_trimmed(languages),
    ensures
        match_spec(languages, text::trim_spec(response)) == match_spec(languages, response),
{
    let e = Edge::Space;
    let t = text::strip_start(response, e);
    let u = text::trim_spec(response);
    text::lemma_strip_start(response, e);
    text::lemma_strip_end(t, e);
    let before = text::lead(response, e);
    let after = text::tail(response, e);
    assert forall|i: int| 0 <= i < before.len() implies text::is_white_space(
        #[trigger] before[i],
    ) by {
        assert(text::drops(e, response[i]));
    }
    assert forall|i: int| 0 <= i < after.len() implies text::is_white_space(
        #[trigger] after[i],
    ) by {
        assert(after[i] == t[i + u.len()]);
        assert(text::drops(e, t[i + u.len()]));
    }
    assert(before + u + after =~= response);
    law_white_space_does_not_matter(languages, before, u, after);
}

/// A response whose last word is no score from 0 to 100 is matched as a whole, with confidence 100,
/// in a table of trimmed names.
pub proof fn law_without_a_score_all_is_the_label(languages: Seq<Language>, response: Seq<char>)
    requires
        names_are_trimmed(languages),
        text::words_spec(response).len() == 0 || score_spec(text::words_spec(response).last())
            is None,
    ensures
        detection_spec(languages, response) == match match_spec(languages, response) {
            Some(l) => Some((l, 100int)),
            None => None,
        },
{
    law_trimming_does_not_matter(languages, response);
}

proof fn lemma_words_of_extended(a: Seq<char>, w: Seq<char>)
    requires
        w.len() > 0,
        forall|i: int| 0 <= i < w.len() ==> !text::is_white_space(#[trigger] w[i]),
    ensures
        text::words_spec(a + seq![' '] + w) == text::words_spec(a).push(w),
    decreases a.len(),
{
    let e = Edge::Space;
    let s = a + seq![' '] + w;
    let t = text::strip_start(a, e);
    text::lemma_strip_start(a, e);
    let k = a.len() - t.len();
    if t.len() == 0 {
        let m = a.len() + 1;
        assert forall|i: int| 0 <= i < m implies text::drops(e, #[trigger] s[i]) by {
            if i < a.len() {
                assert(s[i] == a[i]);
            }
        }
        assert(s[m as int] == w[0]);
        text::lemma_strip_start_is(s, e, m as int);
        assert(s.skip(m as int) == w);
        text::lemma_word_len_is(w, w.len() as int);
        assert(w.take(w.len() as int) == w);
        let rest = w.skip(w.len() as int);
        assert(text::words_spec(rest) == Seq::<Seq<char>>::empty()) by {
            text::lemma_strip_start(rest, e);
        }
        assert(text::words_spec(s) == seq![w] + Seq::<Seq<char>>::empty());
        assert(text::words_spec(s) == text::words_spec(a).push(w));
    } else {
        assert forall|i: int| 0 <= i < k implies text::drops(e, #[trigger] s[i]) by {
            assert(s[i] == a[i]);
        }
        assert(s[k] == a[k]);
        assert(t[0] == a[k]);
        text::lemma_strip_start_is(s, e, k);
        let u = t + seq![' '] + w;
        assert(s.skip(k) == u);
        text::lemma_word_len(t);
        let n = text::word_len(t) as int;
        assert forall|i: int| 0 <= i < n implies !text::is_white_space(#[trigger] u[i]) by {
            assert(u[i] == t[i]);
        }
        if n < t.len() {
            assert(u[n] == t[n]);
        }
        text::lemma_word_len_is(u, n);
        assert(u.take(n) == t.take(n));
        let rest = t.skip(n);
        assert(u.skip(n) == rest + seq![' '] + w);
        lemma_words_of_extended(rest, w);
        assert(text::words_spec(s) == seq![t.take(n)] + text::words_spec(rest).push(w));
        assert(text::words_spec(s) == text::words_spec(a).push(w));
    }
}

proof fn lemma_decimal_is_a_numeral(n: nat)
    ensures
        text::is_numeral(text::decimal_spec(n)),
        text::numeral_value(text::decimal_spec(n)) == n,
    decreases n,
{
    let d = text::decimal_spec(n);
    if n < 10 {
        assert(d.drop_last() == Seq::<char>::empty());
        assert(text::numeral_value(d.drop_last()) == 0);
    } else {
        lemma_decimal_is_a_numeral(n / 10);
        assert(d.drop_last() == text::decimal_spec(n / 10));
    }
}

/// An answer in the expected form, a label and a score, is read as that label and that score.
pub proof fn law_expected_form_is_read_back(
    languages: Seq<Language>,
    label: Seq<char>,
    score: nat,
)
    requires
        score <= 100,
    ensures
        label_and_score(label + seq![' '] + text::decimal_spec(score)) == (
            text::join_spec(text::words_spec(label)),
            score as int,
        ),
        detection_spec(languages, label + seq![' '] + text::decimal_spec(score)) == match match_spec(
            languages,
            text::join_spec(text::words_spec(label)),
        ) {
            Some(l) => Some((l, score as int)),
            None => None,
        },
{
    let w = text::decimal_spec(score);
    lemma_decimal_is_a_numeral(score);
    assert forall|i: int| 0 <= i < w.len() implies !text::is_white_space(#[trigger] w[i]) by {
        assert(text::is_digit(w[i]));
    }
    lemma_words_of_extended(label, w);
    let ws = text::words_spec(label + seq![' '] + w);
    assert(ws.last() == w);
    assert(ws.drop_last() == text::words_spec(label));
    assert(text::is_digit(w[0]));
}

} // verus!
