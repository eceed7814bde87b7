use response_stream::clock::Timestamp;
use response_stream::consumable::Consumable;
use response_stream::text::{decimal_text, digits_text, is_blank, same_text};

#[test]
fn a_consumable_is_taken_once() {
    let mut consumable = Consumable::new("value".to_string());
    assert_eq!(consumable.consume(), Some("value".to_string()));
    assert_eq!(consumable.consume(), None);
    assert_eq!(consumable.consume(), None);
}

#[test]
fn consumables_do_not_affect_each_other() {
    let mut all = vec![Consumable::new('a'), Consumable::new('b')];
    let answers: Vec<Option<char>> = [1, 0, 1, 0]
        .into_iter()
        .map(|which: usize| all[which].consume())
        .collect();
    assert_eq!(answers, vec![Some('b'), Some('a'), None, None]);
}

#[test]
fn texts_are_compared_character_by_character() {
    assert!(same_text("", ""));
    assert!(same_text("é", "é"));
    assert!(!same_text("é", "e\u{301}"));
    assert!(!same_text("abc", "abd"));
    assert!(!same_text("abc", "ab"));
}

#[test]
fn numerals() {
    assert_eq!(digits_text(0), "0");
    assert_eq!(digits_text(1020), "1020");
    assert_eq!(digits_text(u64::MAX), "18446744073709551615");
    assert_eq!(decimal_text(-1), "-1");
    assert_eq!(decimal_text(i64::MIN), "-9223372036854775808");
    assert_eq!(decimal_text(i64::MAX), "9223372036854775807");
}

#[test]
fn blank_lines() {
    assert!(is_blank(""));
    assert!(is_blank(" \t\r\n\u{a0}\u{2028}"));
    assert!(!is_blank(" x "));
    assert!(!is_blank("\u{200b}"));
}

#[test]
fn durations_can_be_negative() {
    let early = Timestamp {
        seconds: 1,
        nanos: 999_999_999,
    };
    let late = Timestamp {
        seconds: 2,
        nanos: 0,
    };
    assert_eq!(late.signed_nanos_since(early), 1);
    assert_eq!(early.signed_nanos_since(late), -1);
}
