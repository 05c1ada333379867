use mitzvah::ext::debug_text::{find_byte, find_word, is_at, kind_from_debug, suffix_from_debug};
use mitzvah::ext::literal::LiteralKind;

#[test]
fn is_at_compares_the_word_in_place() {
    assert!(is_at(b"kind: Str", b"kind", 0));
    assert!(is_at(b"kind: Str", b"Str", 6));
    assert!(!is_at(b"kind: Str", b"Str", 5));
    assert!(!is_at(b"kind: Str", b"Str", 7));
    assert!(!is_at(b"ab", b"abc", 0));
    assert!(is_at(b"ab", b"", 2));
    assert!(!is_at(b"ab", b"", 3));
    assert!(!is_at(b"ab", b"b", usize::MAX));
}

#[test]
fn find_word_gives_the_first_place() {
    assert_eq!(find_word(b"abcabc", b"bc", 0), Some(1));
    assert_eq!(find_word(b"abcabc", b"bc", 1), Some(1));
    assert_eq!(find_word(b"abcabc", b"bc", 2), Some(4));
    assert_eq!(find_word(b"abcabc", b"bc", 5), None);
    assert_eq!(find_word(b"abcabc", b"cb", 0), None);
    assert_eq!(find_word(b"abc", b"abcd", 0), None);
    assert_eq!(find_word(b"abc", b"", 3), Some(3));
    assert_eq!(find_word(b"abc", b"", 4), None);
    assert_eq!(find_word(b"", b"", 0), Some(0));
}

#[test]
fn find_byte_gives_the_first_of_either() {
    assert_eq!(find_byte(b"Str(1), x", b',', b'(', 0), Some(3));
    assert_eq!(find_byte(b"Str, (x", b',', b'(', 0), Some(3));
    assert_eq!(find_byte(b"Str, (x", b',', b'(', 4), Some(5));
    assert_eq!(find_byte(b"Str", b',', b'(', 0), None);
    assert_eq!(find_byte(b"Str,", b',', b',', 4), None);
    assert_eq!(find_byte(b"Str,", b',', b',', 9), None);
}

#[test]
fn kinds_by_name() {
    let debug = |kind: &str| format!("Literal {{ kind: {}, symbol: \"x\", suffix: None }}", kind);
    assert_eq!(kind_from_debug(&debug("Char")), LiteralKind::Char);
    assert_eq!(kind_from_debug(&debug("Integer")), LiteralKind::Integer);
    assert_eq!(kind_from_debug(&debug("Float")), LiteralKind::Float);
    assert_eq!(kind_from_debug(&debug("Str")), LiteralKind::Str);
    assert_eq!(kind_from_debug(&debug("ByteStr")), LiteralKind::ByteStr);
    assert_eq!(kind_from_debug(&debug("Byte")), LiteralKind::Byte);
    assert_eq!(kind_from_debug(&debug("CStr")), LiteralKind::CStr);
    assert_eq!(kind_from_debug(&debug("StrRaw(2)")), LiteralKind::StrRaw(0));
    assert_eq!(
        kind_from_debug(&debug("ByteStrRaw(1)")),
        LiteralKind::ByteStrRaw(0)
    );
    assert_eq!(kind_from_debug(&debug("CStrRaw(0)")), LiteralKind::CStrRaw(0));
    assert_eq!(kind_from_debug(&debug("Bool")), LiteralKind::Error);
    assert_eq!(kind_from_debug(&debug("")), LiteralKind::Error);
}

#[test]
fn raw_kinds_take_their_depth_from_the_whole_text() {
    assert_eq!(
        kind_from_debug("#1 Literal { kind: StrRaw(1), symbol: \"#\" }"),
        LiteralKind::StrRaw(1)
    );
    let deep = format!("{} kind: StrRaw(1), \"", "#".repeat(256));
    assert_eq!(kind_from_debug(&deep), LiteralKind::Error);
}

#[test]
fn kind_is_missing_without_label_or_end() {
    assert_eq!(kind_from_debug(""), LiteralKind::Error);
    assert_eq!(kind_from_debug("Literal { symbol: \"x\" }"), LiteralKind::Error);
    assert_eq!(kind_from_debug("kind: Integer"), LiteralKind::Error);
    assert_eq!(kind_from_debug("kind: Integer,"), LiteralKind::Integer);
    assert_eq!(kind_from_debug("kind: Integer("), LiteralKind::Integer);
    assert_eq!(kind_from_debug("kind: "), LiteralKind::Error);
    assert_eq!(kind_from_debug("kind:Integer,"), LiteralKind::Error);
}

#[test]
fn suffix_in_debug_text() {
    assert_eq!(
        suffix_from_debug("Literal { kind: Integer, symbol: \"1\", suffix: Some(\"usize\"), span: #0 }"),
        Some("usize".into())
    );
    assert_eq!(
        suffix_from_debug("Literal { kind: Integer, symbol: \"1\", suffix: None, span: #0 }"),
        None
    );
    assert_eq!(suffix_from_debug("suffix: Some(\"\")"), Some("".into()));
    assert_eq!(suffix_from_debug("suffix: Some(\"\u{e9}t\u{e9}\")"), Some("\u{e9}t\u{e9}".into()));
}

#[test]
fn suffix_is_missing_in_a_text_of_another_form() {
    assert_eq!(suffix_from_debug(""), None);
    assert_eq!(suffix_from_debug("Literal { kind: Integer }"), None);
    assert_eq!(suffix_from_debug("suffix: "), None);
    assert_eq!(suffix_from_debug("suffix: Some"), None);
    assert_eq!(suffix_from_debug("suffix: Some(\"u8"), None);
    assert_eq!(suffix_from_debug("suffix: Some(\"u8\""), Some("u8".into()));
    assert_eq!(suffix_from_debug("suffix: a\u{e9}\u{e9}\u{e9}\""), None);
    assert_eq!(
        suffix_from_debug("suffix: \u{e9}\u{e9}\u{e9}\u{e9}\""),
        Some("\u{e9}".into())
    );
    assert_eq!(suffix_from_debug("suffix: abcdefgh\"i"), Some("gh".into()));
}
