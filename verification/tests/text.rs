use dashtui::text::{decimal_string, replace_str, split_str, split_words, trim_str, Separator};

#[test]
fn trim_removes_unicode_whitespace() {
    assert_eq!(trim_str("\u{3000}\t hi there \n\u{a0}"), "hi there");
    assert_eq!(trim_str("   "), "");
}

#[test]
fn split_keeps_empty_pieces_and_words_drop_them() {
    assert_eq!(split_str("/a//b/", Separator::Char('/')), vec!["", "a", "", "b", ""]);
    assert_eq!(split_words("  a \t b\n"), vec!["a", "b"]);
    assert!(split_words("").is_empty());
}

#[test]
fn decimal_and_replace() {
    assert_eq!(decimal_string(0), "0");
    assert_eq!(decimal_string(1234567890), "1234567890");
    assert_eq!(replace_str("aXbXc", "X", "--"), "a--b--c");
}
