//! Laws of carrying punctuation and letter case over to a translation.

use vstd::prelude::*;

use crate::formatting::{formatted, is_closing, with_case_of, with_closing_of, with_initial_of};
use crate::formatting::{all_lower, all_upper};
use crate::laws::text::{law_case_of_characters, law_case_of_texts, law_strip_leaves_what_is_between};
use crate::std_text::{ascii_lower, ascii_upper, is_lower, is_upper, lowercase, lowercase_char};
use crate::std_text::{uppercase, uppercase_char};
use crate::text::{is_white_space, lemma_blank_trims_to_nothing, trim_spec, Edge};

verus! {

/// Closing punctuation is `!`, `?`, `.`, `,`, `;` and the ideographic full stop.
pub proof fn law_closing_marks(c: char)
    ensures
        is_closing(c) <==> (c as u32 == 33 || c as u32 == 63 || c as u32 == 46 || c as u32 == 44
            || c as u32 == 59 || c as u32 == 0x3002),
{
}

/// Whether `t` is a text with no white space at its ends.
pub open spec fn is_trimmed(t: Seq<char>) -> bool {
    t.len() > 0 && !is_white_space(t[0]) && !is_white_space(t[t.len() - 1])
}

proof fn lemma_trimmed(t: Seq<char>)
    requires
        is_trimmed(t),
    ensures
        trim_spec(t) == t,
{
    law_strip_leaves_what_is_between(Seq::empty(), t, Seq::empty(), Edge::Space);
    assert(Seq::<char>::empty() + t + Seq::<char>::empty() =~= t);
}

/// White space round a translation makes no difference.
pub proof fn law_white_space_round_a_translation(
    q: Seq<char>,
    before: Seq<char>,
    t: Seq<char>,
    after: Seq<char>,
)
    requires
        is_trimmed(t),
        forall|i: int| 0 <= i < before.len() ==> is_white_space(#[trigger] before[i]),
        forall|i: int| 0 <= i < after.len() ==> is_white_space(#[trigger] after[i]),
    ensures
        formatted(q, before + t + after) == formatted(q, t),
{
    law_strip_leaves_what_is_between(before, t, after, Edge::Space);
    lemma_trimmed(t);
}

/// Where the source begins with a character that has no case, letters keep their case, and only the
/// closing mark is adapted: added where the source has one and the translation has none, kept where
/// it is the same, exchanged where it is another, taken off where the source has none. Every other
/// character of the translation stays.
pub proof fn law_closing_mark_is_carried_over(q: Seq<char>, t: Seq<char>)
    requires
        q.len() > 0,
        !is_lower(q[0]),
        !is_upper(q[0]),
        is_trimmed(t),
    ensures
        ({
            let p = q[q.len() - 1];
            let z = t[t.len() - 1];
            let q_closes = p == '!' || p == '?' || p == '.' || p == ',' || p == ';' || p == '\u{3002}';
            let t_closes = z == '!' || z == '?' || z == '.' || z == ',' || z == ';' || z == '\u{3002}';
            &&& q_closes && !t_closes ==> formatted(q, t) == t.push(p)
            &&& q_closes && z == p ==> formatted(q, t) == t
            &&& q_closes && t_closes && z != p ==> formatted(q, t) == t.update(t.len() - 1, p)
            &&& !q_closes && !t_closes ==> formatted(q, t) == t
            &&& !q_closes && t_closes ==> formatted(q, t) == trim_spec(t.take(t.len() - 1))
        }),
{
    lemma_trimmed(t);
    assert(!all_lower(q));
    assert(!all_upper(q));
    let p = q[q.len() - 1];
    let c = with_closing_of(p, t);
    assert(formatted(q, t) == trim_spec(c));
    if is_closing(p) {
        assert(c[0] == t[0] || c[0] == p);
        lemma_trimmed(c);
        assert(t.drop_last().push(p) =~= t.update(t.len() - 1, p));
    } else if !is_closing(t.last()) {
        assert(c == t);
    } else {
        assert(t.drop_last() =~= t.take(t.len() - 1));
    }
}

/// What letter case does to a translation after its closing mark was adapted: nothing where source
/// and translation begin alike or without case, else the first letter alone is changed; unless all
/// of the source is in one case.
pub proof fn law_first_letter_is_carried_over(q: Seq<char>, t: Seq<char>)
    requires
        q.len() > 0,
        is_trimmed(t),
        exists|i: int| 0 <= i < q.len() && !is_lower(#[trigger] q[i]),
        exists|i: int| 0 <= i < q.len() && !is_upper(#[trigger] q[i]),
    ensures
        ({
            let c = with_closing_of(q[q.len() - 1], t);
            &&& c.len() == 0 ==> formatted(q, t) == Seq::<char>::empty()
            &&& c.len() > 0 && is_lower(q[0]) && is_upper(c[0]) ==> formatted(q, t) == trim_spec(
                lowercase_char(c[0]) + c.skip(1),
            )
            &&& c.len() > 0 && is_upper(q[0]) && is_lower(c[0]) && !is_upper(c[0]) ==> formatted(q, t)
                == trim_spec(
                uppercase_char(c[0]) + c.skip(1),
            )
            &&& c.len() > 0 && !(is_lower(q[0]) && is_upper(c[0])) && !(is_upper(q[0]) && is_lower(
                c[0],
            )) ==> formatted(q, t) == trim_spec(c)
        }),
{
    lemma_trimmed(t);
    assert(!all_lower(q));
    assert(!all_upper(q));
    law_strip_leaves_what_is_between(Seq::empty(), Seq::empty(), Seq::empty(), Edge::Space);
    assert(Seq::<char>::empty() + Seq::<char>::empty() + Seq::<char>::empty()
        =~= Seq::<char>::empty());
    let c = with_closing_of(q[q.len() - 1], t);
    assert(q.last() == q[q.len() - 1]);
    assert(with_case_of(q, c) == c);
    assert(formatted(q, t) == trim_spec(with_initial_of(q, c)));
    if c.len() == 0 {
        assert(c =~= Seq::<char>::empty());
    }
}

/// A source that is all in lowercase, or all in uppercase, in whatever script, puts the whole
/// translation in that case.
pub proof fn law_case_of_the_whole(q: Seq<char>, t: Seq<char>)
    requires
        q.len() > 0,
        is_trimmed(t),
    ensures
        ({
            let c = with_closing_of(q[q.len() - 1], t);
            let low = lowercase(c);
            let up = uppercase(c);
            &&& (forall|i: int| 0 <= i < q.len() ==> is_lower(#[trigger] q[i])) && !is_upper(q[0])
                ==> formatted(q, t) == trim_spec(
                if low.len() > 0 && is_upper(low[0]) {
                    lowercase_char(low[0]) + low.skip(1)
                } else {
                    low
                },
            )
            &&& (forall|i: int| 0 <= i < q.len() ==> is_upper(#[trigger] q[i])) && !is_lower(q[0])
                ==> formatted(q, t) == trim_spec(
                if up.len() > 0 && is_lower(up[0]) {
                    uppercase_char(up[0]) + up.skip(1)
                } else {
                    up
                },
            )
        }),
{
    lemma_trimmed(t);
    assert(q.last() == q[q.len() - 1]);
    let c = with_closing_of(q[q.len() - 1], t);
    if (forall|i: int| 0 <= i < q.len() ==> is_lower(#[trigger] q[i])) && !is_upper(q[0]) {
        assert(all_lower(q) && !all_upper(q));
        assert(formatted(q, t) == trim_spec(with_initial_of(q, lowercase(c))));
    }
    if (forall|i: int| 0 <= i < q.len() ==> is_upper(#[trigger] q[i])) && !is_lower(q[0]) {
        assert(all_upper(q) && !all_lower(q));
        assert(formatted(q, t) == trim_spec(with_initial_of(q, uppercase(c))));
    }
}

/// A source that is all in one case gives a result in that case, with its closing mark, which such a
/// source does not have, taken off.
pub proof fn law_case_of_the_whole_is_carried_over(q: Seq<char>, t: Seq<char>)
    requires
        q.len() > 0,
        is_trimmed(t),
        forall|i: int| 0 <= i < t.len() ==> (#[trigger] t[i] as u32) < 128,
    ensures
        ({
            let z = t[t.len() - 1];
            let body = if z == '!' || z == '?' || z == '.' || z == ',' || z == ';' {
                t.take(t.len() - 1)
            } else {
                t
            };
            &&& (forall|i: int| 0 <= i < q.len() ==> 'a' <= #[trigger] q[i] <= 'z') ==> formatted(q, t)
                == trim_spec(Seq::new(body.len(), |i: int| ascii_lower(body[i])))
            &&& (forall|i: int| 0 <= i < q.len() ==> 'A' <= #[trigger] q[i] <= 'Z') ==> formatted(q, t)
                == trim_spec(Seq::new(body.len(), |i: int| ascii_upper(body[i])))
        }),
{
    lemma_trimmed(t);
    let p = q[q.len() - 1];
    let z = t[t.len() - 1];
    assert(t.last() == z);
    let body = if z == '!' || z == '?' || z == '.' || z == ',' || z == ';' {
        t.take(t.len() - 1)
    } else {
        t
    };
    assert(t.drop_last() =~= t.take(t.len() - 1));
    assert forall|i: int| 0 <= i < body.len() implies (#[trigger] body[i] as u32) < 128 by {
        assert(body[i] == t[i]);
    }
    law_case_of_texts(body, 0);
    assert(crate::std_text::is_ascii_text(body));
    if forall|i: int| 0 <= i < q.len() ==> 'a' <= #[trigger] q[i] <= 'z' {
        assert('a' <= p <= 'z');
        assert forall|i: int| 0 <= i < q.len() implies is_lower(#[trigger] q[i]) by {}
        assert(!is_upper(q[0]));
        assert(!all_upper(q));
        assert(with_closing_of(p, t) == body);
        let low = lowercase(body);
        assert(low =~= Seq::new(body.len(), |i: int| ascii_lower(body[i])));
        if low.len() > 0 {
            assert(!is_upper(low[0]));
        }
        assert(formatted(q, t) == trim_spec(low));
    }
    if forall|i: int| 0 <= i < q.len() ==> 'A' <= #[trigger] q[i] <= 'Z' {
        assert('A' <= p <= 'Z');
        assert forall|i: int| 0 <= i < q.len() implies is_upper(#[trigger] q[i]) by {}
        assert(!is_lower(q[0]));
        assert(!all_lower(q));
        assert(with_closing_of(p, t) == body);
        let up = uppercase(body);
        assert(up =~= Seq::new(body.len(), |i: int| ascii_upper(body[i])));
        if up.len() > 0 {
            assert(!is_lower(up[0]));
        }
        assert(formatted(q, t) == trim_spec(up));
    }
}

/// The closing mark depends on nothing but the last characters: the same law as for a source without
/// case, before case is looked at.
pub proof fn law_closing_mark(p: char, t: Seq<char>)
    requires
        t.len() > 0,
    ensures
        ({
            let z = t[t.len() - 1];
            let q_closes = p == '!' || p == '?' || p == '.' || p == ',' || p == ';' || p == '\u{3002}';
            let t_closes = z == '!' || z == '?' || z == '.' || z == ',' || z == ';' || z == '\u{3002}';
            &&& q_closes && !t_closes ==> with_closing_of(p, t) == t.push(p)
            &&& q_closes && t_closes ==> with_closing_of(p, t) == t.update(t.len() - 1, p)
            &&& !q_closes && !t_closes ==> with_closing_of(p, t) == t
            &&& !q_closes && t_closes ==> with_closing_of(p, t) == t.take(t.len() - 1)
        }),
{
    assert(t.drop_last() =~= t.take(t.len() - 1));
    assert(t.drop_last().push(p) =~= t.update(t.len() - 1, p));
    if t.last() == p {
        assert(t =~= t.update(t.len() - 1, p));
    }
}

/// For a source and a translation in ASCII whose source is not all in one case, the result is the
/// translation with its closing mark adapted, and agrees with it but for the case of the first
/// letter.
pub proof fn law_nothing_else_changes(q: Seq<char>, t: Seq<char>)
    requires
        q.len() > 0,
        is_trimmed(t),
        exists|i: int| 0 <= i < q.len() && !is_lower(#[trigger] q[i]),
        exists|i: int| 0 <= i < q.len() && !is_upper(#[trigger] q[i]),
        (t[0] as u32) < 128,
        is_closing(q[q.len() - 1]),
    ensures
        formatted(q, t).len() == if is_closing(t[t.len() - 1]) {
            t.len()
        } else {
            t.len() + 1
        },
        forall|i: int|
            1 <= i < formatted(q, t).len() - 1 ==> #[trigger] formatted(q, t)[i] == t[i],
        formatted(q, t)[formatted(q, t).len() - 1] == q[q.len() - 1],
        formatted(q, t).len() > 1 ==> ascii_lower(formatted(q, t)[0]) == ascii_lower(t[0]),
        formatted(q, t).len() > 1 && 'a' <= q[0] <= 'z' && 'A' <= t[0] <= 'Z' ==> formatted(q, t)[0]
            == ascii_lower(t[0]),
        formatted(q, t).len() > 1 && 'A' <= q[0] <= 'Z' && 'a' <= t[0] <= 'z' ==> formatted(q, t)[0]
            == ascii_upper(t[0]),
        formatted(q, t).len() > 1 && ('a' <= q[0] <= 'z') == ('a' <= t[0] <= 'z') && ('A' <= q[0]
            <= 'Z') == ('A' <= t[0] <= 'Z') && (q[0] as u32) < 128 ==> formatted(q, t)[0] == t[0],
{
    let p = q[q.len() - 1];
    law_closing_mark(p, t);
    law_closing_marks(p);
    law_closing_marks(t[t.len() - 1]);
    let c = with_closing_of(p, t);
    assert(c[c.len() - 1] == p);
    law_first_letter_is_carried_over(q, t);
    law_case_of_characters(c[0]);
    law_case_of_characters(q[0]);
    let r = if is_lower(q[0]) && is_upper(c[0]) {
        lowercase_char(c[0]) + c.skip(1)
    } else if is_upper(q[0]) && is_lower(c[0]) {
        uppercase_char(c[0]) + c.skip(1)
    } else {
        c
    };
    if c.len() > 1 {
        assert(c[0] == t[0]);
    } else {
        assert(c[0] == p);
    }
    assert(r.len() == c.len());
    assert forall|i: int| 1 <= i < c.len() implies #[trigger] r[i] == c[i] by {}
    assert(is_trimmed(r)) by {
        assert(r[r.len() - 1] == p);
    }
    lemma_trimmed(r);
    assert(formatted(q, t) == r);
}

/// An empty source has an empty result, and a blank translation gives the source back to the letter.
pub proof fn law_blank_translation(q: Seq<char>, translation: Seq<char>)
    requires
        forall|i: int| 0 <= i < translation.len() ==> is_white_space(#[trigger] translation[i]),
    ensures
        formatted(q, translation) == q,
        formatted(Seq::empty(), q) == Seq::<char>::empty(),
{
    lemma_blank_trims_to_nothing(translation);
    if q.len() == 0 {
        assert(q =~= Seq::<char>::empty());
    }
}

} // verus!
