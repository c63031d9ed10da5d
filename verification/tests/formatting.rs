use ltengine::formatting::improve_formatting;

#[test]
fn closing_punctuation_is_replaced_added_and_removed() {
    assert_eq!(improve_formatting("Hello!", "Hola."), "Hola!");
    assert_eq!(improve_formatting("Hello!", "Hola"), "Hola!");
    assert_eq!(improve_formatting("Hello!", "Hola!"), "Hola!");
    assert_eq!(improve_formatting("Hello", "Hola."), "Hola");
    assert_eq!(improve_formatting("Hello", "Hola.."), "Hola.");
    assert_eq!(improve_formatting("A b\u{3002}", "C d."), "C d\u{3002}");
    assert_eq!(improve_formatting("A b;", "C d,"), "C d;");
}

#[test]
fn case_of_the_source_is_carried_over() {
    assert_eq!(improve_formatting("hello", "HOLA"), "hola");
    assert_eq!(improve_formatting("HELLO", "hola"), "HOLA");
    assert_eq!(improve_formatting("hello world", "Hola Mundo"), "hola Mundo");
    assert_eq!(improve_formatting("Hello world", "hola Mundo"), "Hola Mundo");
    assert_eq!(improve_formatting("1 hello", "Hola"), "Hola");
}

#[test]
fn case_beyond_ascii_is_carried_over() {
    assert_eq!(improve_formatting("hello world", "\u{C9}t\u{E9} long"), "\u{E9}t\u{E9} long");
    assert_eq!(improve_formatting("Hello world", "\u{E9}t\u{E9} long"), "\u{C9}t\u{E9} long");
    assert_eq!(improve_formatting("hello", "\u{C9}T\u{C9}"), "\u{E9}t\u{E9}");
    assert_eq!(improve_formatting("HELLO", "stra\u{DF}e"), "STRASSE");
    assert_eq!(improve_formatting("\u{C9}T\u{C9}", "summer"), "SUMMER");
    assert_eq!(improve_formatting("\u{E9}t\u{E9}", "SUMMER"), "summer");
    assert_eq!(improve_formatting("Big world", "\u{DF}a b"), "SSa b");
    assert_eq!(improve_formatting("big world", "\u{130}a b"), "i\u{307}a b");
}

#[test]
fn nothing_to_format() {
    assert_eq!(improve_formatting("", "Hola"), "");
    assert_eq!(improve_formatting("Hello", "  \n"), "Hello");
    assert_eq!(improve_formatting("Hello", ""), "Hello");
    assert_eq!(improve_formatting("a", "."), "");
}

#[test]
fn formatted_text_is_trimmed() {
    assert_eq!(improve_formatting("Hello there", "  Hola \u{A0}\u{3000}"), "Hola");
    assert_eq!(improve_formatting("Hello there", "Hola ."), "Hola");
}
