use ltengine::cleanup::cleanup_output;

#[test]
fn test_clean_zero_width_spaces() {
    let result = cleanup_output("ab\u{200B}c");
    assert_eq!(result.cleaned, "abc");
    assert_eq!(result.removed, 1);
    assert_eq!(result.replaced, 0);
}

#[test]
fn test_clean_mixed_junk() {
    let result = cleanup_output("Hello\u{200B}\u{200C}\u{200D}\u{FEFF}\u{200E}\u{200F}World");
    assert_eq!(result.cleaned, "HelloWorld");
    assert_eq!(result.removed, 6);
    assert_eq!(result.replaced, 0);
}

#[test]
fn test_soft_hyphen_replaced() {
    let result = cleanup_output("hel\u{00AD}lo");
    assert_eq!(result.cleaned, "hel-lo");
    assert_eq!(result.removed, 0);
    assert_eq!(result.replaced, 1);
}

#[test]
fn test_soft_hyphen_and_removals() {
    // Input: "hel" + soft-hyphen + "lo" + ZWSP + soft-hyphen + "wor" + ZWNJ + "ld"
    // Output: soft-hyphens replaced with hyphens, ZWSP/ZWNJ removed -> "hel-lo-world"
    let result = cleanup_output("hel\u{00AD}lo\u{200B}\u{00AD}wor\u{200C}ld");
    assert_eq!(result.cleaned, "hel-lo-world");
    assert_eq!(result.removed, 2);
    assert_eq!(result.replaced, 2);
}

#[test]
fn test_newline_tab_preserved() {
    let result = cleanup_output("a\nb\tc");
    assert_eq!(result.cleaned, "a\nb\tc");
    assert_eq!(result.removed, 0);
    assert_eq!(result.replaced, 0);
}

#[test]
fn test_no_cleanup_needed() {
    let result = cleanup_output("Hello, world!");
    assert_eq!(result.cleaned, "Hello, world!");
    assert_eq!(result.removed, 0);
    assert_eq!(result.replaced, 0);
}

#[test]
fn test_directional_overrides() {
    let result = cleanup_output("test\u{202A}override\u{202C}end");
    assert_eq!(result.cleaned, "testoverrideend");
    assert_eq!(result.removed, 2);
    assert_eq!(result.replaced, 0);
}

#[test]
fn test_c0_control_chars() {
    let result = cleanup_output("a\u{0000}\u{0001}\u{0002}b");
    assert_eq!(result.cleaned, "ab");
    assert_eq!(result.removed, 3);
    assert_eq!(result.replaced, 0);
}

#[test]
fn test_empty_input() {
    let result = cleanup_output("");
    assert_eq!(result.cleaned, "");
    assert_eq!(result.removed, 0);
    assert_eq!(result.replaced, 0);
}

#[test]
fn cleaned_output_is_clean_already() {
    let once = cleanup_output("a\u{200B}b\u{AD}c\u{7}");
    assert_eq!(once.cleaned, "ab-c");
    assert_eq!((once.removed, once.replaced), (2, 1));
    let twice = cleanup_output(&once.cleaned);
    assert_eq!(twice.cleaned, once.cleaned);
    assert_eq!((twice.removed, twice.replaced), (0, 0));
}

#[test]
fn cleanup_accounts_for_every_character() {
    let input = "x\u{2066}y\u{206F}z\u{AD}\u{FEFF}\r\n";
    let r = cleanup_output(input);
    assert_eq!(r.cleaned, "xyz-\r\n");
    assert_eq!(r.cleaned.chars().count() + r.removed, input.chars().count());
}

#[test]
fn cleanup_of_parts_is_cleanup_of_the_whole() {
    let (a, b) = ("a\u{200D}\u{AD}", "\u{202E}b\u{0}");
    let whole = cleanup_output(&format!("{}{}", a, b));
    let (ra, rb) = (cleanup_output(a), cleanup_output(b));
    assert_eq!(whole.cleaned, format!("{}{}", ra.cleaned, rb.cleaned));
    assert_eq!(whole.removed, ra.removed + rb.removed);
    assert_eq!(whole.replaced, ra.replaced + rb.replaced);
}

#[test]
fn cleanup_keeps_neighbours_of_the_removed_ranges() {
    let kept = "\u{9}\u{A}\u{D}\u{20}\u{200A}\u{2010}\u{2029}\u{202F}\u{2065}\u{2070}\u{FEFE}";
    let r = cleanup_output(kept);
    assert_eq!(r.cleaned, kept);
    assert_eq!(r.removed, 0);
}
