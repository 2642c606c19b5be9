use rizonet_core::text::{
    chars_of, decimal_text, lower_text, same_but_case, same_text, split_chars, text_of, truth_text,
};

fn pieces(s: &str, sep: char) -> Vec<String> {
    split_chars(&chars_of(s), sep).iter().map(text_of).collect()
}

#[test]
fn splitting_keeps_empty_pieces() {
    assert_eq!(pieces("", '.'), vec![""]);
    assert_eq!(pieces("a", '.'), vec!["a"]);
    assert_eq!(pieces("a.b.c", '.'), vec!["a", "b", "c"]);
    assert_eq!(pieces(".a..", '.'), vec!["", "a", "", ""]);
}

#[test]
fn pieces_join_back() {
    for text in ["", "a", "..", ".a..b", "a.b.c."] {
        assert_eq!(pieces(text, '.').join("."), text);
    }
}

#[test]
fn numbers_are_written_in_decimal() {
    assert_eq!(decimal_text(0), "0");
    assert_eq!(decimal_text(10), "10");
    assert_eq!(decimal_text(907), "907");
    assert_eq!(decimal_text(u64::MAX), "18446744073709551615");
    assert_eq!(truth_text(true), "true");
    assert_eq!(truth_text(false), "false");
}

#[test]
fn only_ascii_letters_change_case() {
    assert_eq!(lower_text("AbZ[@`Ä9"), "abz[@`Ä9");
    assert!(same_but_case("ABCdef", "abcDEF"));
    assert!(!same_but_case("Ä", "ä"));
    assert!(same_text("a", "a"));
    assert!(!same_text("a", "A"));
}
