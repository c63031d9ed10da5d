//! Laws of cleaning model output.

use vstd::prelude::*;

use crate::cleanup::{
    cleaned_spec, is_invisible, is_soft_hyphen, law_clean_text_is_unchanged,
    law_cleanup_of_concatenation, removed_spec, replaced_spec, visible_form,
};

verus! {

/// The characters that are removed are the zero-width characters and directional marks U+200B to
/// U+200F and U+FEFF, the overrides U+202A to U+202E, the controls U+2066 to U+206F, and the C0
/// controls other than tab, newline and carriage return. The one that is replaced is U+00AD.
pub proof fn law_what_is_removed(c: char)
    ensures
        is_invisible(c) <==> (0x200B <= c as u32 <= 0x200F || c as u32 == 0xFEFF || 0x202A <= c as u32
            <= 0x202E || 0x2066 <= c as u32 <= 0x206F || c as u32 <= 8 || 11 <= c as u32 <= 12 || 14
            <= c as u32 <= 31),
        is_soft_hyphen(c) <==> c as u32 == 0xAD,
        c as u32 == 0xAD ==> visible_form(c) == '-',
        c as u32 != 0xAD ==> visible_form(c) == c,
{
}

/// A character is cleaned by what it is, wherever it stands: one of the controls is gone and counted
/// as removed, a soft hyphen is a hyphen and counted as replaced, and any other character, of
/// whatever script, stays and is not counted.
pub proof fn law_one_character_at_a_time(before: Seq<char>, c: char, after: Seq<char>)
    ensures
        (0x200B <= c as u32 <= 0x200F || c as u32 == 0xFEFF || 0x202A <= c as u32 <= 0x202E || 0x2066
            <= c as u32 <= 0x206F || c as u32 <= 8 || 11 <= c as u32 <= 12 || 14 <= c as u32 <= 31)
            ==> {
            &&& cleaned_spec(before.push(c) + after) == cleaned_spec(before) + cleaned_spec(after)
            &&& removed_spec(before.push(c) + after) == removed_spec(before) + 1 + removed_spec(
                after,
            )
            &&& replaced_spec(before.push(c) + after) == replaced_spec(before) + replaced_spec(after)
        },
        c as u32 == 0xAD ==> {
            &&& cleaned_spec(before.push(c) + after) == cleaned_spec(before).push('-')
                + cleaned_spec(after)
            &&& removed_spec(before.push(c) + after) == removed_spec(before) + removed_spec(after)
            &&& replaced_spec(before.push(c) + after) == replaced_spec(before) + 1 + replaced_spec(
                after,
            )
        },
        !(0x200B <= c as u32 <= 0x200F || c as u32 == 0xFEFF || 0x202A <= c as u32 <= 0x202E || 0x2066
            <= c as u32 <= 0x206F || c as u32 <= 8 || 11 <= c as u32 <= 12 || 14 <= c as u32 <= 31
            || c as u32 == 0xAD) ==> {
            &&& cleaned_spec(before.push(c) + after) == cleaned_spec(before).push(c) + cleaned_spec(
                after,
            )
            &&& removed_spec(before.push(c) + after) == removed_spec(before) + removed_spec(after)
            &&& replaced_spec(before.push(c) + after) == replaced_spec(before) + replaced_spec(after)
        },
        cleaned_spec(Seq::empty()) == Seq::<char>::empty(),
        removed_spec(Seq::empty()) == 0,
        replaced_spec(Seq::empty()) == 0,
{
    law_what_is_removed(c);
    law_clean_text_is_unchanged(Seq::empty());
    law_cleanup_of_concatenation(before.push(c), after);
    assert(before.push(c) =~= before + seq![c]);
    law_cleanup_of_concatenation(before, seq![c]);
    reveal(Seq::filter);
    let one = seq![c];
    assert(one.drop_last() =~= Seq::<char>::empty());
    assert(one.last() == c);
    assert(cleaned_spec(one) =~= if is_invisible(c) {
        Seq::<char>::empty()
    } else {
        seq![visible_form(c)]
    }) by {
        reveal_with_fuel(Seq::filter, 2);
    }
    assert(removed_spec(one) == if is_invisible(c) { 1nat } else { 0nat }) by {
        reveal_with_fuel(Seq::filter, 2);
    }
    assert(replaced_spec(one) == if is_soft_hyphen(c) { 1nat } else { 0nat }) by {
        reveal_with_fuel(Seq::filter, 2);
    }
    assert(cleaned_spec(before) + Seq::<char>::empty() + cleaned_spec(after) =~= cleaned_spec(
        before,
    ) + cleaned_spec(after));
    assert(cleaned_spec(before) + seq!['-'] + cleaned_spec(after) =~= cleaned_spec(before).push('-')
        + cleaned_spec(after));
    assert(cleaned_spec(before) + seq![c] + cleaned_spec(after) =~= cleaned_spec(before).push(c)
        + cleaned_spec(after));
}

/// A text without controls and soft hyphens, of letters of any script, say, comes out as it went in.
pub proof fn law_ordinary_text_is_kept(s: Seq<char>)
    requires
        forall|i: int|
            0 <= i < s.len() ==> {
                let u = #[trigger] s[i] as u32;
                !(0x200B <= u <= 0x200F || u == 0xFEFF || 0x202A <= u <= 0x202E || 0x2066 <= u
                    <= 0x206F || u <= 8 || 11 <= u <= 12 || 14 <= u <= 31 || u == 0xAD)
            },
    ensures
        cleaned_spec(s) == s,
        removed_spec(s) == 0,
        replaced_spec(s) == 0,
{
    assert forall|i: int| 0 <= i < s.len() implies !is_invisible(#[trigger] s[i])
        && !is_soft_hyphen(s[i]) by {
        law_what_is_removed(s[i]);
    }
    law_clean_text_is_unchanged(s);
}

} // verus!
