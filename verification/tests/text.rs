use swu_app::text::after_first;
use swu_app::text::bool_to_text;
use swu_app::text::push_decimal;
use swu_app::text::push_decimal_u64;
use swu_app::text::push_signed_decimal;
use swu_app::text::same_text;
use swu_app::text::signed_decimal_text;

#[test]
fn decimal_numerals_have_no_leading_zeros() {
    for n in [0u64, 1, 9, 10, 11, 99, 100, 101, 1000, 65535, 4294967296, u64::MAX] {
        let mut text = String::new();
        push_decimal_u64(&mut text, n);
        assert_eq!(text, n.to_string());
    }
    let mut text = "row ".to_owned();
    push_decimal(&mut text, 1207);
    assert_eq!(text, "row 1207");
    let mut text = String::new();
    push_decimal(&mut text, usize::MAX);
    assert_eq!(text, usize::MAX.to_string());
}

#[test]
fn signed_numerals_carry_their_sign() {
    for n in [0i64, 1, -1, 9, -9, 10, -10, 12345, -12345, i64::MAX, i64::MIN, i64::MIN + 1] {
        assert_eq!(signed_decimal_text(n), n.to_string());
    }
    let mut text = "x=".to_owned();
    push_signed_decimal(&mut text, -42);
    assert_eq!(text, "x=-42");
}

#[test]
fn truth_values_are_written_in_words() {
    assert_eq!(bool_to_text(true), "true");
    assert_eq!(bool_to_text(false), "false");
}

#[test]
fn texts_are_the_same_when_their_characters_are() {
    assert!(same_text("", ""));
    assert!(same_text("pay", "pay"));
    assert!(!same_text("pay", "Pay"));
    assert!(!same_text("pay", "pa"));
    assert!(!same_text("pay", "pay "));
    assert!(same_text("сума", "сума"));
}

#[test]
fn text_after_the_first_delimiter() {
    assert_eq!(after_first("stores/abc", '/'), Some("abc"));
    assert_eq!(after_first("stores/abc/def", '/'), Some("abc/def"));
    assert_eq!(after_first("/abc", '/'), Some("abc"));
    assert_eq!(after_first("abc/", '/'), Some(""));
    assert_eq!(after_first("/", '/'), Some(""));
    assert_eq!(after_first("abc", '/'), None);
    assert_eq!(after_first("", '/'), None);
    assert_eq!(after_first("a:b", '/'), None);
}
