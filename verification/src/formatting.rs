//! Carrying punctuation and letter case of a source text over to its translation.

use vstd::prelude::*;

use crate::std_text::{char_to_lowercase, char_to_uppercase};
use crate::text::{chars_of, trim};

verus! {

use crate::std_text::{is_lower, is_upper, lowercase, lowercase_char, uppercase, uppercase_char};
use crate::text::{drops, is_blank, is_white_space, strip_start, trim_spec, Edge};
use crate::text::{lemma_blank_trims_to_nothing, lemma_strip_end_is, lemma_strip_is_final};
use crate::text::lemma_strip_start;

/// The closing punctuation that is carried over.
pub open spec fn is_closing(c: char) -> bool {
    c == '!' || c == '?' || c == '.' || c == ',' || c == ';' || c == '\u{3002}'
}

/// `t` with the closing punctuation of a text that ends in `last`: its own is kept if it is the
/// same, replaced if it is another, added if there is none, and taken away if `last` is not
/// closing punctuation.
pub open spec fn with_closing_of(last: char, t: Seq<char>) -> Seq<char> {
    if is_closing(last) {
        if t.last() == last {
            t
        } else if is_closing(t.last()) {
            t.drop_last().push(last)
        } else {
            t.push(last)
        }
    } else if is_closing(t.last()) {
        t.drop_last()
    } else {
        t
    }
}

/// Whether every character of `s` is a lowercase letter.
pub open spec fn all_lower(s: Seq<char>) -> bool {
    forall|i: int| 0 <= i < s.len() ==> is_lower(#[trigger] s[i])
}

/// Whether every character of `s` is an uppercase letter.
pub open spec fn all_upper(s: Seq<char>) -> bool {
    forall|i: int| 0 <= i < s.len() ==> is_upper(#[trigger] s[i])
}

/// `t` in the case of `q`, where every character of `q` is a letter of that case.
pub open spec fn with_case_of(q: Seq<char>, t: Seq<char>) -> Seq<char> {
    let l = if all_lower(q) {
        lowercase(t)
    } else {
        t
    };
    if all_upper(q) {
        uppercase(l)
    } else {
        l
    }
}

/// `t` with its first letter in the case of the first letter of `q`.
pub open spec fn with_initial_of(q: Seq<char>, t: Seq<char>) -> Seq<char> {
    if q.len() == 0 || t.len() == 0 {
        t
    } else if is_lower(q[0]) && is_upper(t[0]) {
        lowercase_char(t[0]) + t.skip(1)
    } else if is_upper(q[0]) && is_lower(t[0]) {
        uppercase_char(t[0]) + t.skip(1)
    } else {
        t
    }
}

/// The translation of `q` as it is given out.
pub open spec fn formatted(q: Seq<char>, translation: Seq<char>) -> Seq<char> {
    let t = trim_spec(translation);
    if q.len() == 0 {
        Seq::empty()
    } else if t.len() == 0 {
        q
    } else {
        trim_spec(with_initial_of(q, with_case_of(q, with_closing_of(q.last(), t))))
    }
}

fn closing(c: char) -> (b: bool)
    ensures
        b == is_closing(c),
{
    c == '!' || c == '?' || c == '.' || c == ',' || c == ';' || c == '\u{3002}'
}

fn lower_throughout(s: &Vec<char>) -> (b: bool)
    ensures
        b == all_lower(s@),
{
    let mut i: usize = 0;
    while i < s.len()
        invariant
            i <= s.len(),
            forall|j: int| 0 <= j < i ==> is_lower(#[trigger] s@[j]),
        decreases s.len() - i,
    {
        if !s[i].is_lowercase() {
            assert(!is_lower(s@[i as int]));
            return false;
        }
        i = i + 1;
    }
    true
}

fn upper_throughout(s: &Vec<char>) -> (b: bool)
    ensures
        b == all_upper(s@),
{
    let mut i: usize = 0;
    while i < s.len()
        invariant
            i <= s.len(),
            forall|j: int| 0 <= j < i ==> is_upper(#[trigger] s@[j]),
        decreases s.len() - i,
    {
        if !s[i].is_uppercase() {
            assert(!is_upper(s@[i as int]));
            return false;
        }
        i = i + 1;
    }
    true
}

/// The tail of `t` behind its first character, put behind `head`.
fn with_head(head: String, t: &str) -> (r: String)
    requires
        t@.len() > 0,
    ensures
        r@ == head@ + t@.skip(1),
{
    let mut out = head;
    out.append(t.substring_char(1, t.unicode_len()));
    proof {
        assert(t@.subrange(1, t@.len() as int) == t@.skip(1));
    }
    out
}

/// Makes a translation look like its source text: the same closing punctuation, the same case
/// where every character of the source is a letter of that case (a space or a mark is none), the
/// same case of the first letter, no white space round it. A blank translation gives the source
/// text back.
pub fn improve_formatting(q: &str, translation: &str) -> (r: String)
    ensures
        r@ == formatted(q@, translation@),
{
    let t = trim(translation);
    let q_chars = chars_of(q);
    let t_chars = chars_of(t.as_str());
    if q_chars.len() == 0 {
        return String::new();
    }
    if t_chars.len() == 0 {
        return q.to_owned();
    }
    let q_last: char = q_chars[q_chars.len() - 1];
    let t_last: char = t_chars[t_chars.len() - 1];
    let shorter: usize = t_chars.len() - 1;
    proof {
        assert(t@.subrange(0, shorter as int) == t@.drop_last());
    }
    let mut result = t.clone();
    if closing(q_last) {
        if q_last != t_last {
            if closing(t_last) {
                result = t.as_str().substring_char(0, shorter).to_owned();
            }
            result.push(q_last);
        }
    } else if closing(t_last) {
        result = t.as_str().substring_char(0, shorter).to_owned();
    }
    if lower_throughout(&q_chars) {
        result = result.as_str().to_lowercase();
    }
    if upper_throughout(&q_chars) {
        result = result.as_str().to_uppercase();
    }
    if result.as_str().unicode_len() > 0 {
        let q0: char = q_chars[0];
        let r0: char = result.as_str().get_char(0);
        if q0.is_lowercase() && r0.is_uppercase() {
            result = with_head(char_to_lowercase(r0), result.as_str());
        } else if q0.is_uppercase() && r0.is_lowercase() {
            result = with_head(char_to_uppercase(r0), result.as_str());
        }
    }
    trim(result.as_str())
}

/// An empty source gives an empty result, and a blank translation gives the source back.
pub proof fn law_nothing_to_format(q: Seq<char>, translation: Seq<char>)
    ensures
        q.len() == 0 ==> formatted(q, translation).len() == 0,
        is_blank(translation) ==> formatted(q, translation) == q,
{
    lemma_blank_trims_to_nothing(translation);
    if q.len() == 0 {
        assert(q == Seq::<char>::empty());
    }
}

/// A formatted translation that is not blank has no white space at either end.
pub proof fn law_formatted_text_is_trimmed(q: Seq<char>, translation: Seq<char>)
    requires
        !is_blank(translation),
    ensures
        trim_spec(formatted(q, translation)) == formatted(q, translation),
{
    lemma_blank_trims_to_nothing(translation);
    let t = trim_spec(translation);
    let r = with_initial_of(q, with_case_of(q, with_closing_of(q.last(), t)));
    lemma_strip_is_final(r, Edge::Space);
    if q.len() == 0 {
        lemma_strip_is_final(Seq::empty(), Edge::Space);
    }
}

/// A source that ends in closing punctuation gives a result that ends in the same, whatever the
/// translation ended in.
pub proof fn law_closing_punctuation_is_kept(q: Seq<char>, translation: Seq<char>)
    requires
        q.len() > 0,
        is_closing(q.last()),
        !is_blank(translation),
    ensures
        formatted(q, translation).len() > 0,
        formatted(q, translation).last() == q.last(),
{
    let p = q.last();
    assert(!is_lower(p) && !is_upper(p));
    lemma_blank_trims_to_nothing(translation);
    let t = with_closing_of(p, trim_spec(translation));
    assert(t.last() == p);
    assert(p == q[q.len() - 1]);
    assert(!all_lower(q));
    assert(!all_upper(q));
    let r = with_initial_of(q, with_case_of(q, t));
    if t.len() == 1 {
        assert(t[0] == p);
    }
    assert(r.len() > 0 && r.last() == p) by {
        if t.len() > 1 {
            assert(t.skip(1).last() == p);
        }
    }
    assert(!is_white_space(p));
    let s = strip_start(r, Edge::Space);
    lemma_strip_start(r, Edge::Space);
    assert(s.len() > 0) by {
        if s.len() == 0 {
            assert(drops(Edge::Space, r[r.len() - 1]));
        }
    }
    assert(s.last() == r.last());
    lemma_strip_end_is(s, Edge::Space, s.len() as int);
    assert(s.take(s.len() as int) == s);
}

} // verus!
