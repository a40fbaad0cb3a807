use rust_wasm_libs::greet;

#[test]
fn greet_puts_the_prefix_before_the_name() {
    assert_eq!(greet("World"), "Hello, World");
}

#[test]
fn greet_accepts_the_empty_name() {
    assert_eq!(greet(""), "Hello, ");
}

#[test]
fn greet_keeps_the_name_as_it_is() {
    assert_eq!(greet("  two  words \n"), "Hello,   two  words \n");
    assert_eq!(greet("Zo\u{eb} \u{1f980}"), "Hello, Zo\u{eb} \u{1f980}");
    assert_eq!(greet("<b>\"x\"</b>"), "Hello, <b>\"x\"</b>");
}

#[test]
fn greet_is_the_prefix_followed_by_the_name() {
    let names = ["a", "Hello, ", "0", "name with, comma", "\t", "\u{0}"];
    for name in names {
        let text = greet(name);
        assert!(text.starts_with("Hello, "));
        assert_eq!(&text["Hello, ".len()..], name);
        assert_eq!(text.chars().count(), 7 + name.chars().count());
    }
}
