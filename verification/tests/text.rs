use carton::text::{is_invalid, join, same_text, to_decimal};

#[test]
fn decimal_of_small_and_large_numbers() {
    assert_eq!(to_decimal(0), "0");
    assert_eq!(to_decimal(7), "7");
    assert_eq!(to_decimal(10), "10");
    assert_eq!(to_decimal(12345), "12345");
    assert_eq!(to_decimal(u64::MAX), "18446744073709551615");
}

#[test]
fn same_text_compares_characters() {
    assert!(same_text("", ""));
    assert!(same_text("Connected", "Connected"));
    assert!(!same_text("Connected", "connected"));
    assert!(!same_text("Connected", "Connecte"));
    assert!(same_text("größe", "größe"));
}

#[test]
fn join_appends() {
    assert_eq!(join("", ""), "");
    assert_eq!(join("State update: ", "Empty"), "State update: Empty");
}

#[test]
fn blank_and_foreign_texts_are_invalid() {
    assert!(is_invalid(""));
    assert!(is_invalid("   "));
    assert!(is_invalid("\t\n\r\u{0B}\u{0C} "));
    assert!(is_invalid("sérver"));
    assert!(is_invalid("\u{00A0}"));
    assert!(!is_invalid("web"));
    assert!(!is_invalid("  web  "));
    assert!(!is_invalid("a b"));
    assert!(!is_invalid("\u{1F}"));
}
