//! What this library takes on trust about characters and strings of the standard library.
//!
//! Case is what Unicode says it is. For ASCII that is a matter of the letters `a` to `z` and `A`
//! to `Z` and is written out here; beyond ASCII it is a table, which only has a name.

use vstd::prelude::*;

verus! {

/// Whether `c` is an ASCII character.
pub open spec fn is_ascii_char(c: char) -> bool {
    (c as u32) < 128
}

/// Whether `s` is made of ASCII characters.
pub open spec fn is_ascii_text(s: Seq<char>) -> bool {
    forall|i: int| 0 <= i < s.len() ==> is_ascii_char(#[trigger] s[i])
}

/// The lowercase form of an ASCII character.
pub open spec fn ascii_lower(c: char) -> char {
    if 'A' <= c <= 'Z' {
        (c as u32 + 32) as char
    } else {
        c
    }
}

/// The uppercase form of an ASCII character.
pub open spec fn ascii_upper(c: char) -> char {
    if 'a' <= c <= 'z' {
        (c as u32 - 32) as char
    } else {
        c
    }
}

/// `s` with its ASCII letters in lowercase.
pub open spec fn ascii_lowered(s: Seq<char>) -> Seq<char> {
    s.map_values(|c: char| ascii_lower(c))
}

/// `s` with its ASCII letters in uppercase.
pub open spec fn ascii_uppered(s: Seq<char>) -> Seq<char> {
    s.map_values(|c: char| ascii_upper(c))
}

/// The ideographic full stop, which is punctuation and has no case.
pub open spec fn is_ideographic_stop(c: char) -> bool {
    c == '\u{3002}'
}

/// What `char::is_lowercase` returns: whether `c` has the Unicode property `Lowercase`.
pub uninterp spec fn unicode_is_lowercase(c: char) -> bool;

/// What `char::is_uppercase` returns: whether `c` has the Unicode property `Uppercase`.
pub uninterp spec fn unicode_is_uppercase(c: char) -> bool;

/// What `str::to_lowercase` returns: the Unicode lowercase mapping of a text.
pub uninterp spec fn unicode_lowercase(s: Seq<char>) -> Seq<char>;

/// What `str::to_uppercase` returns: the Unicode uppercase mapping of a text.
pub uninterp spec fn unicode_uppercase(s: Seq<char>) -> Seq<char>;

/// What `char::to_lowercase` yields: the Unicode lowercase mapping of a character.
pub uninterp spec fn unicode_lowercase_char(c: char) -> Seq<char>;

/// What `char::to_uppercase` yields: the Unicode uppercase mapping of a character.
pub uninterp spec fn unicode_uppercase_char(c: char) -> Seq<char>;

/// Whether `c` is a lowercase letter.
pub open spec fn is_lower(c: char) -> bool {
    if is_ascii_char(c) {
        'a' <= c <= 'z'
    } else {
        !is_ideographic_stop(c) && unicode_is_lowercase(c)
    }
}

/// Whether `c` is an uppercase letter.
pub open spec fn is_upper(c: char) -> bool {
    if is_ascii_char(c) {
        'A' <= c <= 'Z'
    } else {
        !is_ideographic_stop(c) && unicode_is_uppercase(c)
    }
}

/// `s` in lowercase. The case of its ASCII letters makes no difference.
pub open spec fn lowercase(s: Seq<char>) -> Seq<char> {
    if is_ascii_text(s) {
        ascii_lowered(s)
    } else {
        unicode_lowercase(ascii_lowered(s))
    }
}

/// `s` in uppercase.
pub open spec fn uppercase(s: Seq<char>) -> Seq<char> {
    if is_ascii_text(s) {
        ascii_uppered(s)
    } else {
        unicode_uppercase(s)
    }
}

/// `c` in lowercase, which may be several characters.
pub open spec fn lowercase_char(c: char) -> Seq<char> {
    if is_ascii_char(c) {
        seq![ascii_lower(c)]
    } else {
        unicode_lowercase_char(c)
    }
}

/// `c` in uppercase, which may be several characters.
pub open spec fn uppercase_char(c: char) -> Seq<char> {
    if is_ascii_char(c) {
        seq![ascii_upper(c)]
    } else {
        unicode_uppercase_char(c)
    }
}

/// `String::push` appends the character to the end of the string.
pub assume_specification[ String::push ](s: &mut String, c: char)
    ensures
        final(s)@ == old(s)@.push(c),
;

/// `char::is_lowercase` tells whether a character has the Unicode property `Lowercase`; among
/// the ASCII characters those are the letters `a` to `z`. The ideographic full stop U+3002, a
/// punctuation mark, has not.
pub assume_specification[ char::is_lowercase ](c: char) -> (b: bool)
    ensures
        is_ascii_char(c) ==> b == ('a' <= c <= 'z'),
        !is_ascii_char(c) ==> b == unicode_is_lowercase(c),
        is_ideographic_stop(c) ==> !b,
;

/// `char::is_uppercase` tells whether a character has the Unicode property `Uppercase`; among
/// the ASCII characters those are the letters `A` to `Z`. The ideographic full stop U+3002, a
/// punctuation mark, has not.
pub assume_specification[ char::is_uppercase ](c: char) -> (b: bool)
    ensures
        is_ascii_char(c) ==> b == ('A' <= c <= 'Z'),
        !is_ascii_char(c) ==> b == unicode_is_uppercase(c),
        is_ideographic_stop(c) ==> !b,
;

/// `str::to_lowercase` is the Unicode lowercase mapping of a text; on a text of ASCII characters
/// it takes the letters `A` to `Z` to `a` to `z` and leaves the others. In any text a letter `A` to
/// `Z` and its lowercase form, which are both cased letters, come to the same.
pub assume_specification[ str::to_lowercase ](s: &str) -> (r: String)
    ensures
        is_ascii_text(s@) ==> r@ == ascii_lowered(s@),
        !is_ascii_text(s@) ==> r@ == unicode_lowercase(s@),
        !is_ascii_text(s@) ==> r@ == unicode_lowercase(ascii_lowered(s@)),
;

/// `str::to_uppercase` is the Unicode uppercase mapping of a text; on a text of ASCII characters
/// it takes the letters `a` to `z` to `A` to `Z` and leaves the others.
pub assume_specification[ str::to_uppercase ](s: &str) -> (r: String)
    ensures
        is_ascii_text(s@) ==> r@ == ascii_uppered(s@),
        !is_ascii_text(s@) ==> r@ == unicode_uppercase(s@),
;

/// `char::to_lowercase` yields the Unicode lowercase mapping of a character; an ASCII character
/// yields one character. The iterator is collected into a string.
#[verifier::external_body]
pub(crate) fn char_to_lowercase(c: char) -> (r: String)
    ensures
        is_ascii_char(c) ==> r@ == seq![ascii_lower(c)],
        !is_ascii_char(c) ==> r@ == unicode_lowercase_char(c),
{
    c.to_lowercase().to_string()
}

/// `char::to_uppercase` yields the Unicode uppercase mapping of a character; an ASCII character
/// yields one character. The iterator is collected into a string.
#[verifier::external_body]
pub(crate) fn char_to_uppercase(c: char) -> (r: String)
    ensures
        is_ascii_char(c) ==> r@ == seq![ascii_upper(c)],
        !is_ascii_char(c) ==> r@ == unicode_uppercase_char(c),
{
    c.to_uppercase().to_string()
}

} // verus!
