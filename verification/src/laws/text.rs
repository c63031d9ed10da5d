//! Laws of white space, words, numbers and letter case.

use vstd::prelude::*;

use crate::std_text::{
    ascii_lower, ascii_lowered, ascii_upper, ascii_uppered, is_ascii_char, is_ascii_text, is_lower,
    is_upper, lowercase, lowercase_char, unicode_is_lowercase, unicode_is_uppercase,
    unicode_lowercase, unicode_lowercase_char, unicode_uppercase, unicode_uppercase_char, uppercase,
    uppercase_char,
};
use crate::text::{
    begins_with, decimal_spec, drops, ends_in, is_blank, is_digit, is_numeral, is_white_space,
    join_spec, lead, lemma_strip_end_is, lemma_strip_start, lemma_strip_start_is, lemma_word_len,
    lemma_word_len_is, numeral_value, opt_str, opt_text, strip, strip_end, strip_start, tail, texts,
    trim_spec, word_len, words_spec, Edge,
};

verus! {

/// White space is tab to carriage return, space, and the spaces and separators of Unicode.
pub proof fn law_white_space(c: char)
    ensures
        is_white_space(c) <==> (9 <= c as u32 <= 13 || c == ' ' || c as u32 == 133 || c as u32 == 160
            || c as u32 == 5760 || 8192 <= c as u32 <= 8202 || c as u32 == 8232 || c as u32 == 8233
            || c as u32 == 8239 || c as u32 == 8287 || c as u32 == 12288),
{
}

/// Round a text white space is set aside, round a label quotes and parentheses too, and nothing
/// else.
pub proof fn law_edge_characters(c: char)
    ensures
        drops(Edge::Space, c) <==> is_white_space(c),
        drops(Edge::Label, c) <==> is_white_space(c) || c == '"' || c == '\'' || c == '(' || c
            == ')',
{
}

/// Of a text with characters round it that are set aside, the text is left, to the letter.
pub proof fn law_strip_leaves_what_is_between(
    before: Seq<char>,
    m: Seq<char>,
    after: Seq<char>,
    edge: Edge,
)
    requires
        forall|i: int| 0 <= i < before.len() ==> drops(edge, #[trigger] before[i]),
        forall|i: int| 0 <= i < after.len() ==> drops(edge, #[trigger] after[i]),
        m.len() > 0 ==> !drops(edge, m[0]) && !drops(edge, m[m.len() - 1]),
    ensures
        strip(before + m + after, edge) == m,
        m.len() > 0 ==> lead(before + m + after, edge) == before,
        m.len() > 0 ==> tail(before + m + after, edge) == after,
        edge is Space ==> trim_spec(before + m + after) == m,
{
    let s = before + m + after;
    if m.len() == 0 {
        assert forall|i: int| 0 <= i < s.len() implies drops(edge, #[trigger] s[i]) by {
            if i < before.len() {
                assert(s[i] == before[i]);
            } else {
                assert(s[i] == after[i - before.len()]);
            }
        }
        lemma_strip_start_is(s, edge, s.len() as int);
        let t = s.skip(s.len() as int);
        lemma_strip_end_is(t, edge, 0);
        assert(t.take(0) =~= m);
    } else {
        let k = before.len() as int;
        assert forall|i: int| 0 <= i < k implies drops(edge, #[trigger] s[i]) by {
            assert(s[i] == before[i]);
        }
        assert(s[k] == m[0]);
        lemma_strip_start_is(s, edge, k);
        let t = s.skip(k);
        assert(t =~= m + after);
        assert forall|i: int| m.len() <= i < t.len() implies drops(edge, #[trigger] t[i]) by {
            assert(t[i] == after[i - m.len()]);
        }
        assert(t[m.len() - 1] == m[m.len() - 1]);
        lemma_strip_end_is(t, edge, m.len() as int);
        assert(t.take(m.len() as int) =~= m);
        assert(lead(s, edge) =~= before);
        assert(tail(s, edge) =~= after);
    }
}

/// A text is blank where all of its characters are white space.
pub proof fn law_blank(s: Seq<char>, c: char)
    ensures
        is_blank(Seq::empty()),
        is_blank(s.push(c)) <==> is_blank(s) && is_white_space(c),
{
    if is_blank(s.push(c)) {
        assert forall|i: int| 0 <= i < s.len() implies is_white_space(#[trigger] s[i]) by {
            assert(s.push(c)[i] == s[i]);
        }
        assert(s.push(c)[s.len() as int] == c);
    }
}

proof fn lemma_no_words(s: Seq<char>)
    requires
        forall|i: int| 0 <= i < s.len() ==> is_white_space(#[trigger] s[i]),
    ensures
        words_spec(s) == Seq::<Seq<char>>::empty(),
{
    lemma_strip_start_is(s, Edge::Space, s.len() as int);
}

/// A text without white space is one word, an empty text is none, and white space between two texts
/// parts the words of the one from those of the other.
pub proof fn law_words(a: Seq<char>, c: char, b: Seq<char>)
    ensures
        words_spec(Seq::empty()) == Seq::<Seq<char>>::empty(),
        is_white_space(c) ==> words_spec(a.push(c) + b) == words_spec(a) + words_spec(b),
        a.len() > 0 && (forall|i: int| 0 <= i < a.len() ==> !is_white_space(#[trigger] a[i]))
            ==> words_spec(a) == seq![a],
    decreases a.len(),
{
    let e = Edge::Space;
    lemma_no_words(Seq::empty());
    if a.len() > 0 && forall|i: int| 0 <= i < a.len() ==> !is_white_space(#[trigger] a[i]) {
        lemma_strip_start_is(a, e, 0);
        assert(a.skip(0) =~= a);
        lemma_word_len_is(a, a.len() as int);
        assert(a.take(a.len() as int) =~= a);
        lemma_no_words(a.skip(a.len() as int));
        assert(words_spec(a) =~= seq![a]);
    }
    if is_white_space(c) {
        let s = a.push(c) + b;
        let t = strip_start(a, e);
        lemma_strip_start(a, e);
        let k = a.len() - t.len();
        if t.len() == 0 {
            let u = strip_start(b, e);
            lemma_strip_start(b, e);
            let m = a.len() + 1 + (b.len() - u.len());
            assert forall|i: int| 0 <= i < m implies drops(e, #[trigger] s[i]) by {
                if i < a.len() {
                    assert(s[i] == a[i]);
                } else if i > a.len() {
                    assert(s[i] == b[i - a.len() - 1]);
                }
            }
            if m < s.len() {
                assert(s[m] == u[0]);
            }
            lemma_strip_start_is(s, e, m);
            assert(s.skip(m) =~= u);
            assert forall|i: int| 0 <= i < a.len() implies is_white_space(#[trigger] a[i]) by {
                assert(drops(e, a[i]));
            }
            lemma_no_words(a);
            assert(words_spec(s) == words_spec(b));
            assert(words_spec(a) + words_spec(b) =~= words_spec(b));
        } else {
            assert forall|i: int| 0 <= i < k implies drops(e, #[trigger] s[i]) by {
                assert(s[i] == a[i]);
            }
            assert(s[k] == t[0]);
            lemma_strip_start_is(s, e, k);
            let u = t.push(c) + b;
            assert(s.skip(k) =~= u);
            lemma_word_len(t);
            let n = word_len(t) as int;
            assert forall|i: int| 0 <= i < n implies !is_white_space(#[trigger] u[i]) by {
                assert(u[i] == t[i]);
            }
            if n < t.len() {
                assert(u[n] == t[n]);
            }
            lemma_word_len_is(u, n);
            assert(u.take(n) =~= t.take(n));
            let rest = t.skip(n);
            assert(u.skip(n) =~= rest.push(c) + b);
            law_words(rest, c, b);
            assert(words_spec(s) == seq![t.take(n)] + (words_spec(rest) + words_spec(b)));
            assert(words_spec(a) == seq![t.take(n)] + words_spec(rest));
            assert(words_spec(s) =~= words_spec(a) + words_spec(b));
        }
    }
}

/// Joined words stand in order with one space between each two.
pub proof fn law_join(ws: Seq<Seq<char>>, w: Seq<char>)
    ensures
        join_spec(Seq::empty()) == Seq::<char>::empty(),
        join_spec(seq![w]) == w,
        ws.len() > 0 ==> join_spec(ws.push(w)) == join_spec(ws).push(' ') + w,
{
    if ws.len() > 0 {
        assert(ws.push(w).drop_last() =~= ws);
        assert(join_spec(ws) + seq![' '] + w =~= join_spec(ws).push(' ') + w);
    }
}

/// The value of digits grows tenfold with each digit behind them, and a number in decimal is made of
/// digits, has the value of the number and does not begin with a zero it could do without.
pub proof fn law_decimal(n: nat, s: Seq<char>, c: char)
    ensures
        numeral_value(Seq::empty()) == 0,
        numeral_value(s.push(c)) == 10 * numeral_value(s) + (c as u32 - 48),
        is_digit(c) <==> 48 <= c as u32 <= 57,
        is_numeral(s) <==> s.len() > 0 && forall|i: int|
            0 <= i < s.len() ==> '0' <= #[trigger] s[i] <= '9',
        is_numeral(decimal_spec(n)),
        numeral_value(decimal_spec(n)) == n,
        n > 0 ==> decimal_spec(n)[0] != '0',
        n < 10 ==> decimal_spec(n).len() == 1,
    decreases n,
{
    assert(s.push(c).drop_last() =~= s);
    let d = decimal_spec(n);
    if n < 10 {
        assert(d.drop_last() =~= Seq::<char>::empty());
        assert(numeral_value(d.drop_last()) == 0);
    } else {
        law_decimal(n / 10, s, c);
        assert(d.drop_last() =~= decimal_spec(n / 10));
        assert(d[0] == decimal_spec(n / 10)[0]);
    }
}

/// A text begins with another where that is its front, and ends in it where that is its back.
pub proof fn law_prefix_and_suffix(s: Seq<char>, p: Seq<char>, rest: Seq<char>)
    ensures
        begins_with(p + rest, p),
        ends_in(rest + p, p),
        begins_with(s, p) ==> s == p + s.skip(p.len() as int),
        ends_in(s, p) ==> s == s.take(s.len() - p.len()) + p,
        begins_with(s, p) || ends_in(s, p) ==> p.len() <= s.len(),
{
    assert((p + rest).take(p.len() as int) =~= p);
    assert((rest + p).skip(rest.len() as int) =~= p);
    if begins_with(s, p) {
        assert(s =~= s.take(p.len() as int) + s.skip(p.len() as int));
    }
    if ends_in(s, p) {
        assert(s =~= s.take(s.len() - p.len()) + s.skip(s.len() - p.len()));
    }
}

/// The text of a string is the string, present or not.
pub proof fn law_texts(v: Seq<String>, i: int, s: String, t: &str)
    requires
        0 <= i < v.len(),
    ensures
        texts(v).len() == v.len(),
        texts(v)[i] == v[i]@,
        opt_text(Some(s)) == Some(s@),
        opt_text(None) is None,
        opt_str(Some(t)) == Some(t@),
        opt_str(None) is None,
{
}

/// Letters from A to Z become those from a to z, and back; every other character stays.
pub proof fn law_ascii_case(c: char)
    ensures
        is_ascii_char(c) <==> (c as u32) < 128,
        65 <= c as u32 <= 90 ==> ascii_lower(c) as u32 == c as u32 + 32,
        !(65 <= c as u32 <= 90) ==> ascii_lower(c) == c,
        97 <= c as u32 <= 122 ==> ascii_upper(c) as u32 == c as u32 - 32,
        !(97 <= c as u32 <= 122) ==> ascii_upper(c) == c,
{
}

/// A letter is lowercase or uppercase as ASCII has it, and beyond as Unicode has it.
pub proof fn law_case_of_characters(c: char)
    ensures
        (c as u32) < 128 ==> (is_lower(c) <==> 97 <= c as u32 <= 122),
        (c as u32) < 128 ==> (is_upper(c) <==> 65 <= c as u32 <= 90),
        c as u32 >= 128 && c as u32 != 0x3002 ==> is_lower(c) == unicode_is_lowercase(c) && is_upper(c)
            == unicode_is_uppercase(c),
        c as u32 == 0x3002 ==> !is_lower(c) && !is_upper(c),
        (c as u32) < 128 ==> lowercase_char(c) == seq![ascii_lower(c)] && uppercase_char(c)
            == seq![ascii_upper(c)],
        c as u32 >= 128 ==> lowercase_char(c) == unicode_lowercase_char(c) && uppercase_char(c)
            == unicode_uppercase_char(c),
{
}

/// A text in ASCII changes case letter by letter, any other as Unicode has it.
pub proof fn law_case_of_texts(s: Seq<char>, i: int)
    ensures
        (forall|j: int| 0 <= j < s.len() ==> (#[trigger] s[j] as u32) < 128) ==> {
            &&& lowercase(s).len() == s.len()
            &&& uppercase(s).len() == s.len()
            &&& 0 <= i < s.len() ==> lowercase(s)[i] == ascii_lower(s[i]) && uppercase(s)[i]
                == ascii_upper(s[i])
        },
        0 <= i < s.len() && s[i] as u32 >= 128 ==> lowercase(s) == unicode_lowercase(
            s.map_values(|c: char| ascii_lower(c)),
        ) && uppercase(s) == unicode_uppercase(s),
{
    if forall|j: int| 0 <= j < s.len() ==> (#[trigger] s[j] as u32) < 128 {
        assert forall|j: int| 0 <= j < s.len() implies is_ascii_char(#[trigger] s[j]) by {}
        assert(is_ascii_text(s));
    }
    if 0 <= i < s.len() && s[i] as u32 >= 128 {
        assert(!is_ascii_char(s[i]));
        assert(ascii_lowered(s) == s.map_values(|c: char| ascii_lower(c)));
    }
}

} // verus!
