//! Removal of invisible characters from model output.
//!
//! Zero-width characters, bidirectional marks, directional overrides, C0 control characters
//! (other than newline, tab and carriage return) and similar invisible characters are removed.
//! Soft hyphens become plain hyphens, so that word boundaries stay visible.

use vstd::prelude::*;

verus! {

/// A cleaned text and what it took to clean it.
pub struct CleanupResult {
    /// Cleaned output string
    pub cleaned: String,
    /// Number of characters stripped from the input
    pub removed: usize,
    /// Number of characters replaced in the input
    pub replaced: usize,
}

/// The characters that are removed:
/// - zero-width characters: U+200B, U+200C, U+200D, U+FEFF
/// - bidirectional marks: U+200E, U+200F
/// - directional overrides: U+202A to U+202E, U+2066 to U+2069
/// - other formatting controls: U+206A to U+206F
/// - C0 controls: U+0000 to U+0008, U+000B to U+000C, U+000E to U+001F
pub open spec fn is_invisible(c: char) -> bool {
    let u = c as u32;
    ||| 0x200B <= u <= 0x200D
    ||| u == 0xFEFF
    ||| u == 0x200E
    ||| u == 0x200F
    ||| 0x202A <= u <= 0x202E
    ||| 0x2066 <= u <= 0x2069
    ||| 0x206A <= u <= 0x206F
    ||| u <= 0x0008
    ||| 0x000B <= u <= 0x000C
    ||| 0x000E <= u <= 0x001F
}

/// The character that is replaced.
pub open spec fn is_soft_hyphen(c: char) -> bool {
    c == '\u{AD}'
}

/// What a character that is not removed becomes.
pub open spec fn visible_form(c: char) -> char {
    if is_soft_hyphen(c) {
        '-'
    } else {
        c
    }
}

/// The cleaned form of `s`: the characters that are not removed, in order, each in its visible
/// form.
pub open spec fn cleaned_spec(s: Seq<char>) -> Seq<char> {
    s.filter(|c: char| !is_invisible(c)).map_values(|c: char| visible_form(c))
}

/// How many characters of `s` are removed.
pub open spec fn removed_spec(s: Seq<char>) -> nat {
    s.filter(|c: char| is_invisible(c)).len()
}

/// How many characters of `s` are replaced.
pub open spec fn replaced_spec(s: Seq<char>) -> nat {
    s.filter(|c: char| is_soft_hyphen(c)).len()
}

proof fn lemma_push(s: Seq<char>, c: char)
    ensures
        cleaned_spec(s.push(c)) == if is_invisible(c) {
            cleaned_spec(s)
        } else {
            cleaned_spec(s).push(visible_form(c))
        },
        removed_spec(s.push(c)) == removed_spec(s) + if is_invisible(c) {
            1nat
        } else {
            0nat
        },
        replaced_spec(s.push(c)) == replaced_spec(s) + if is_soft_hyphen(c) {
            1nat
        } else {
            0nat
        },
{
    reveal(Seq::filter);
    assert(s.push(c).drop_last() == s);
    assert(cleaned_spec(s.push(c)) =~= if is_invisible(c) {
        cleaned_spec(s)
    } else {
        cleaned_spec(s).push(visible_form(c))
    });
}

proof fn lemma_empty()
    ensures
        cleaned_spec(Seq::empty()) == Seq::<char>::empty(),
        removed_spec(Seq::empty()) == 0,
        replaced_spec(Seq::empty()) == 0,
{
    reveal(Seq::filter);
    assert(cleaned_spec(Seq::empty()) =~= Seq::<char>::empty());
}

proof fn lemma_counts_bounded(s: Seq<char>)
    ensures
        removed_spec(s) + cleaned_spec(s).len() == s.len(),
        replaced_spec(s) <= cleaned_spec(s).len(),
    decreases s.len(),
{
    if s.len() == 0 {
        lemma_empty();
        assert(s == Seq::<char>::empty());
    } else {
        lemma_counts_bounded(s.drop_last());
        lemma_push(s.drop_last(), s.last());
        assert(s.drop_last().push(s.last()) == s);
    }
}

/// Removes the invisible characters of `input` and makes its soft hyphens plain ones.
pub fn cleanup_output(input: &str) -> (r: CleanupResult)
    ensures
        r.cleaned@ == cleaned_spec(input@),
        r.removed == removed_spec(input@),
        r.replaced == replaced_spec(input@),
{
    let total: usize = input.unicode_len();
    let mut removed_count: usize = 0;
    let mut replaced_count: usize = 0;
    let mut output = String::new();
    proof {
        lemma_empty();
        assert(input@.take(0) == Seq::<char>::empty());
    }
    for ch in it: input.chars()
        invariant
            total == input@.len(),
            it.seq() == input@,
            output@ == cleaned_spec(input@.take(it.index() as int)),
            removed_count == removed_spec(input@.take(it.index() as int)),
            replaced_count == replaced_spec(input@.take(it.index() as int)),
    {
        proof {
            let done = input@.take(it.index() as int);
            lemma_push(done, ch);
            lemma_counts_bounded(done);
            assert(done.push(ch) == input@.take(it.index() + 1));
        }
        match ch {
            // Zero-width characters
            '\u{200B}' | '\u{200C}' | '\u{200D}' | '\u{FEFF}' => {
                removed_count = removed_count + 1;
            },
            // Bidirectional marks
            '\u{200E}' | '\u{200F}' => {
                removed_count = removed_count + 1;
            },
            // Directional overrides
            '\u{202A}'..='\u{202E}' | '\u{2066}'..='\u{2069}' => {
                removed_count = removed_count + 1;
            },
            // Other formatting controls
            '\u{206A}'..='\u{206F}' => {
                removed_count = removed_count + 1;
            },
            // C0 control characters
            '\u{0000}'..='\u{0008}' | '\u{000B}'..='\u{000C}' | '\u{000E}'..='\u{001F}' => {
                removed_count = removed_count + 1;
            },
            '\u{00AD}' => {
                replaced_count = replaced_count + 1;
                output.push('-');
            },
            _ => {
                output.push(ch);
            },
        }
    }
    proof {
        assert(input@.take(input@.len() as int) == input@);
    }
    CleanupResult { cleaned: output, removed: removed_count, replaced: replaced_count }
}

/// Every character of the input is either removed or stands in the output, and only
/// characters of the output were replaced.
pub proof fn law_every_character_is_accounted_for(s: Seq<char>)
    ensures
        cleaned_spec(s).len() + removed_spec(s) == s.len(),
        replaced_spec(s) <= cleaned_spec(s).len(),
{
    lemma_counts_bounded(s);
}

/// A cleaned text holds neither a character to remove nor one to replace.
pub proof fn law_cleaned_text_is_clean(s: Seq<char>)
    ensures
        forall|i: int|
            0 <= i < cleaned_spec(s).len() ==> !is_invisible(#[trigger] cleaned_spec(s)[i])
                && !is_soft_hyphen(cleaned_spec(s)[i]),
    decreases s.len(),
{
    if s.len() == 0 {
        lemma_empty();
        assert(s == Seq::<char>::empty());
    } else {
        law_cleaned_text_is_clean(s.drop_last());
        lemma_push(s.drop_last(), s.last());
        assert(s.drop_last().push(s.last()) == s);
    }
}

/// A text without characters to remove or to replace is left as it is. Newline, tab and every
/// other ordinary character is among those that stay.
pub proof fn law_clean_text_is_unchanged(s: Seq<char>)
    requires
        forall|i: int| 0 <= i < s.len() ==> !is_invisible(#[trigger] s[i]) && !is_soft_hyphen(s[i]),
    ensures
        cleaned_spec(s) == s,
        removed_spec(s) == 0,
        replaced_spec(s) == 0,
        !is_invisible('\n') && !is_soft_hyphen('\n'),
        !is_invisible('\t') && !is_soft_hyphen('\t'),
    decreases s.len(),
{
    if s.len() == 0 {
        lemma_empty();
        assert(s == Seq::<char>::empty());
    } else {
        let p = s.drop_last();
        assert forall|i: int| 0 <= i < p.len() implies !is_invisible(#[trigger] p[i])
            && !is_soft_hyphen(p[i]) by {
            assert(p[i] == s[i]);
        }
        law_clean_text_is_unchanged(p);
        assert(s.last() == s[s.len() - 1]);
        lemma_push(p, s.last());
        assert(p.push(s.last()) == s);
    }
}

/// Cleaning a cleaned text changes nothing and counts nothing.
pub proof fn law_cleanup_is_idempotent(s: Seq<char>)
    ensures
        cleaned_spec(cleaned_spec(s)) == cleaned_spec(s),
        removed_spec(cleaned_spec(s)) == 0,
        replaced_spec(cleaned_spec(s)) == 0,
{
    law_cleaned_text_is_clean(s);
    law_clean_text_is_unchanged(cleaned_spec(s));
}

/// Two texts are cleaned together as they are one after the other.
pub proof fn law_cleanup_of_concatenation(a: Seq<char>, b: Seq<char>)
    ensures
        cleaned_spec(a + b) == cleaned_spec(a) + cleaned_spec(b),
        removed_spec(a + b) == removed_spec(a) + removed_spec(b),
        replaced_spec(a + b) == replaced_spec(a) + replaced_spec(b),
    decreases b.len(),
{
    if b.len() == 0 {
        lemma_empty();
        assert(b == Seq::<char>::empty());
        assert(a + b == a);
        assert(cleaned_spec(a) + cleaned_spec(b) == cleaned_spec(a));
    } else {
        let p = b.drop_last();
        law_cleanup_of_concatenation(a, p);
        lemma_push(p, b.last());
        lemma_push(a + p, b.last());
        assert(p.push(b.last()) == b);
        assert((a + p).push(b.last()) == a + b);
        assert(cleaned_spec(a + b) =~= cleaned_spec(a) + cleaned_spec(b));
    }
}

} // verus!
