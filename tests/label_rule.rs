use location_service::{LabelValidator, LABEL_PATTERN};

#[test]
fn accepts_letters_digits_underscore_and_space() {
    let v = LabelValidator::new();
    assert!(v.is_valid("gps"));
    assert!(v.is_valid("GPS_2 phone"));
    assert!(v.is_valid("a"));
    assert!(v.is_valid(" "));
    assert!(v.is_valid("0123456789"));
}

#[test]
fn refuses_empty_label() {
    let v = LabelValidator::new();
    assert!(!v.is_valid(""));
}

#[test]
fn refuses_punctuation_and_other_characters() {
    let v = LabelValidator::new();
    assert!(!v.is_valid("bad!source"));
    assert!(!v.is_valid("a-b"));
    assert!(!v.is_valid("caf\u{e9}"));
    assert!(!v.is_valid("tab\there"));
    assert!(!v.is_valid("line\n"));
    assert!(!v.is_valid("\nline"));
    assert!(!v.is_valid("semi;colon"));
}

#[test]
fn pattern_is_anchored() {
    assert_eq!(LABEL_PATTERN, "^[a-zA-Z0-9_ ]+$");
}

#[test]
fn single_characters_follow_the_label_rule() {
    let v = LabelValidator::new();
    for code in 0u32..0x250 {
        let c = char::from_u32(code).unwrap();
        let allowed = c.is_ascii_alphanumeric() || c == '_' || c == ' ';
        let s = c.to_string();
        assert_eq!(v.is_valid(&s), allowed, "character {:?}", c);
        let longer = format!("ok{}ok", c);
        assert_eq!(v.is_valid(&longer), allowed, "text {:?}", longer);
    }
}
