use renderer::text::{push_decimal, push_fixed, push_padded_left, push_padded_right, push_spaces};

fn decimal_text(n: u128) -> String {
    let mut out = String::new();
    push_decimal(&mut out, n);
    out
}

fn fixed_text(n: u128, places: u8) -> String {
    let mut out = String::new();
    push_fixed(&mut out, n, places);
    out
}

#[test]
fn whole_numbers_are_written_without_leading_zeros() {
    assert_eq!(decimal_text(0), "0");
    assert_eq!(decimal_text(7), "7");
    assert_eq!(decimal_text(10), "10");
    assert_eq!(decimal_text(1_234_567_890), "1234567890");
    assert_eq!(decimal_text(u128::MAX), "340282366920938463463374607431768211455");
}

#[test]
fn whole_numbers_are_written_as_format_writes_them() {
    let mut n: u128 = 1;
    while n < u128::MAX / 7 {
        assert_eq!(decimal_text(n), format!("{}", n));
        assert_eq!(decimal_text(n - 1), format!("{}", n - 1));
        n = n * 7 + 3;
    }
}

#[test]
fn fixed_places_keep_leading_zeros() {
    assert_eq!(fixed_text(0, 5), "00000");
    assert_eq!(fixed_text(42, 5), "00042");
    assert_eq!(fixed_text(99_999, 5), "99999");
    assert_eq!(fixed_text(7, 1), "7");
    assert_eq!(fixed_text(7, 0), "");
}

#[test]
fn fixed_places_keep_the_last_digits_only() {
    assert_eq!(fixed_text(123_456, 5), "23456");
    assert_eq!(fixed_text(123_456, 2), "56");
}

#[test]
fn digits_are_appended_to_what_is_there() {
    let mut out = String::from("n=");
    push_decimal(&mut out, 15);
    out.push('.');
    push_fixed(&mut out, 5, 3);
    assert_eq!(out, "n=15.005");
}

#[test]
fn spaces_are_appended() {
    let mut out = String::from("a");
    push_spaces(&mut out, 3);
    assert_eq!(out, "a   ");
    push_spaces(&mut out, 0);
    assert_eq!(out, "a   ");
}

#[test]
fn a_short_text_is_moved_to_the_right() {
    let mut out = String::from("[");
    push_padded_left(&mut out, "1.5", 6);
    assert_eq!(out, "[   1.5");
    assert_eq!(out, format!("[{:>6}", "1.5"));
}

#[test]
fn a_short_text_is_filled_up_on_the_right() {
    let mut out = String::from("[");
    push_padded_right(&mut out, "ab", 5);
    assert_eq!(out, "[ab   ");
    assert_eq!(out, format!("[{:5}", "ab"));
}

#[test]
fn a_text_as_wide_as_the_field_or_wider_stays_whole() {
    let mut out = String::new();
    push_padded_left(&mut out, "abc", 3);
    push_padded_left(&mut out, "defg", 3);
    push_padded_right(&mut out, "hij", 3);
    push_padded_right(&mut out, "klmn", 0);
    assert_eq!(out, "abcdefghijklmn");
}

#[test]
fn the_width_counts_characters_not_bytes() {
    let mut out = String::new();
    push_padded_left(&mut out, "é", 3);
    push_padded_right(&mut out, "ü", 2);
    assert_eq!(out, "  éü ");
    assert_eq!(out, format!("{:>3}{:2}", "é", "ü"));
}
