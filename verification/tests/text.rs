use nus_bridge::text::{chars_of, labelled, text_eq};

#[test]
fn text_eq_compares_characters() {
    assert!(text_eq("", ""));
    assert!(text_eq("abc", "abc"));
    assert!(!text_eq("abc", "abd"));
    assert!(!text_eq("abc", "ab"));
    assert!(!text_eq("abc", "ABC"));
    assert!(text_eq("\u{20ac}", "\u{20ac}"));
    assert!(!text_eq("\u{20ac}", "\u{20ad}"));
}

#[test]
fn chars_of_keeps_order() {
    assert_eq!(chars_of("a\u{e9}z"), vec!['a', '\u{e9}', 'z']);
    assert_eq!(chars_of(""), Vec::<char>::new());
}

#[test]
fn labelled_puts_the_label_first() {
    assert_eq!(labelled("Read: ", "x"), "Read: x");
    assert_eq!(labelled("", ""), "");
}
