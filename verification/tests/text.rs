use memso::text::{contains_text, push_decimal};

#[test]
fn contains_text_finds_a_middle_occurrence() {
    assert!(contains_text("Parse error: table memories already exists", "already exists"));
}

#[test]
fn contains_text_misses_an_absent_text() {
    assert!(!contains_text("no such table: schema_version", "already exists"));
}

#[test]
fn contains_text_of_a_longer_needle_is_false() {
    assert!(!contains_text("already", "already exists"));
}

#[test]
fn contains_text_of_the_empty_needle_is_true() {
    assert!(contains_text("", ""));
    assert!(contains_text("abc", ""));
}

#[test]
fn contains_text_at_the_end_and_start() {
    assert!(contains_text("xyz already exists", "already exists"));
    assert!(contains_text("already exists!", "already exists"));
}

#[test]
fn push_decimal_writes_numbers() {
    let mut s = String::from("n=");
    push_decimal(&mut s, 0);
    assert_eq!(s, "n=0");
    let mut s = String::new();
    push_decimal(&mut s, 9);
    push_decimal(&mut s, 10);
    push_decimal(&mut s, 4096);
    assert_eq!(s, "9104096");
}
