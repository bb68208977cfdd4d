use radio_screen::clock::{DateFormatter, TimeFormatter};
use radio_screen::text::{
    align_right, chars_of, decimal_text, pad_left, signed_decimal_text, text_from, DisplayText,
};

#[test]
fn decimal_digits() {
    assert_eq!(decimal_text(0), "0");
    assert_eq!(decimal_text(7), "7");
    assert_eq!(decimal_text(10), "10");
    assert_eq!(decimal_text(1234567890), "1234567890");
    assert_eq!(decimal_text(u64::MAX), "18446744073709551615");
}

#[test]
fn signed_decimal_digits() {
    assert_eq!(signed_decimal_text(0), "0");
    assert_eq!(signed_decimal_text(-1), "-1");
    assert_eq!(signed_decimal_text(42), "42");
    assert_eq!(signed_decimal_text(i64::MIN), "-9223372036854775808");
    assert_eq!(signed_decimal_text(i64::MAX), "9223372036854775807");
}

#[test]
fn numbers_have_their_digits_for_text() {
    assert_eq!(255u8.to_text(), "255");
    assert_eq!((-1i32).to_text(), "-1");
    assert_eq!(i32::MIN.to_text(), "-2147483648");
    assert_eq!(12usize.to_text(), "12");
    assert_eq!(3600u64.to_text(), "3600");
}

#[test]
fn strings_are_their_own_text() {
    assert_eq!(String::from("abc").to_text(), "abc");
    assert_eq!("Vol".to_text(), "Vol");
}

#[test]
fn characters_of_a_text() {
    assert_eq!(chars_of("h\u{e9}!"), vec!['h', '\u{e9}', '!']);
    assert_eq!(chars_of(""), Vec::<char>::new());
}

#[test]
fn text_from_an_index() {
    let chars = chars_of("h\u{e9}llo");
    assert_eq!(text_from(&chars, 0), "h\u{e9}llo");
    assert_eq!(text_from(&chars, 2), "llo");
    assert_eq!(text_from(&chars, 5), "");
}

#[test]
fn padding_on_the_left() {
    assert_eq!(pad_left("7", 3), "  7");
    assert_eq!(pad_left("255", 3), "255");
    assert_eq!(pad_left("1000", 3), "1000");
    assert_eq!(pad_left("", 2), "  ");
}

#[test]
fn flush_right() {
    assert_eq!(align_right("ab", 5), "   ab");
    assert_eq!(align_right("abcde", 5), "abcde");
    assert_eq!(align_right("abcdefg", 5), "abcde");
    assert_eq!(align_right("abc", 0), "");
}

#[test]
fn date_is_shown_with_weekday_and_month() {
    assert_eq!(DateFormatter { days: 730_000 }.to_text(), "Fri 03 Sep 1999");
    assert_eq!(DateFormatter { days: 1 }.to_text(), "Mon 01 Jan 0001");
    assert_eq!(DateFormatter { days: i32::MAX }.to_text(), "");
}

#[test]
fn dates_are_equal_by_their_day() {
    assert!(DateFormatter { days: 5 } == DateFormatter { days: 5 });
    assert!(DateFormatter { days: 5 } != DateFormatter { days: 6 });
}

#[test]
fn time_is_shown_as_hour_and_minute() {
    assert_eq!(TimeFormatter { seconds: 0, nanoseconds: 0 }.to_text(), "00:00");
    assert_eq!(TimeFormatter { seconds: 3_661, nanoseconds: 5 }.to_text(), "01:01");
    assert_eq!(TimeFormatter { seconds: 86_399, nanoseconds: 1_999_999_999 }.to_text(), "23:59");
    assert_eq!(TimeFormatter { seconds: 86_400, nanoseconds: 0 }.to_text(), "");
    assert_eq!(TimeFormatter { seconds: 10, nanoseconds: 1_000_000_000 }.to_text(), "");
}

#[test]
fn times_are_equal_to_the_nanosecond() {
    assert!(
        TimeFormatter { seconds: 5, nanoseconds: 1 } == TimeFormatter { seconds: 5, nanoseconds: 1 }
    );
    assert!(
        TimeFormatter { seconds: 5, nanoseconds: 1 } != TimeFormatter { seconds: 5, nanoseconds: 2 }
    );
}
