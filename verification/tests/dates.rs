use open_sight::dates::{
    attempt_ambiguous_date_parse, choose_date, format_date, format_modified_datetime,
    modified_text, show_date, show_time_at, timestamp_from_epoch_offset,
    show_short_year_date, CalendarDate, Timestamp,
};

#[test]
fn eight_digit_date_is_normalized() {
    assert_eq!(format_date("19800101", None), "01-01-1980");
}

#[test]
fn six_digit_date_resolves_to_a_year_after_1900() {
    assert_eq!(format_date("800101", None), "01-01-1980");
    assert_eq!(attempt_ambiguous_date_parse("800101"), "01-01-1980");
}

#[test]
fn six_digit_date_of_this_century_is_kept() {
    assert_eq!(format_date("150203", None), "03-02-2015");
}

#[test]
fn unreadable_date_gives_empty_text() {
    assert_eq!(format_date("", None), "");
    assert_eq!(format_date("not a date", None), "");
    assert_eq!(format_date("19801301", None), "");
    assert_eq!(attempt_ambiguous_date_parse("xx0101"), "");
}

#[test]
fn hinted_layout_is_the_only_one_tried() {
    assert_eq!(format_date("1975-12-31", Some("%Y-%m-%d")), "31-12-1975");
    assert_eq!(format_date("19751231", Some("%Y-%m-%d")), "");
    assert_eq!(format_date("800101", Some("%Y-%m-%d")), "");
    assert_eq!(
        format_date("2021-03-04 10:20:30.125", Some("%Y-%m-%d %H:%M:%S%.f")),
        "04-03-2021"
    );
}

#[test]
fn dates_are_shown_with_padding_and_sign() {
    assert_eq!(show_date(CalendarDate { year: 1980, month: 1, day: 1 }), "01-01-1980");
    assert_eq!(show_date(CalendarDate { year: 33, month: 11, day: 9 }), "09-11-0033");
    assert_eq!(show_date(CalendarDate { year: 0, month: 2, day: 29 }), "29-02-0000");
    assert_eq!(show_date(CalendarDate { year: -4, month: 2, day: 29 }), "29-02--0004");
    assert_eq!(show_date(CalendarDate { year: 12345, month: 6, day: 7 }), "07-06-+12345");
    assert_eq!(show_date(CalendarDate { year: 262142, month: 12, day: 31 }), "31-12-+262142");
    assert_eq!(show_date(CalendarDate { year: -262143, month: 1, day: 1 }), "01-01--262143");
}

#[test]
fn days_off_the_calendar_are_shown_empty() {
    assert_eq!(show_date(CalendarDate { year: 2023, month: 4, day: 31 }), "");
    assert_eq!(show_date(CalendarDate { year: 2023, month: 2, day: 29 }), "");
    assert_eq!(show_date(CalendarDate { year: 1900, month: 2, day: 29 }), "");
    assert_eq!(show_date(CalendarDate { year: 2000, month: 2, day: 29 }), "29-02-2000");
    assert_eq!(show_date(CalendarDate { year: 2024, month: 0, day: 1 }), "");
    assert_eq!(show_date(CalendarDate { year: 2024, month: 13, day: 1 }), "");
    assert_eq!(show_date(CalendarDate { year: 2024, month: 1, day: 0 }), "");
    assert_eq!(show_date(CalendarDate { year: 262143, month: 1, day: 1 }), "");
    assert_eq!(show_date(CalendarDate { year: -262144, month: 12, day: 31 }), "");
}

#[test]
fn short_year_reading_needs_a_year_after_1900() {
    let early = CalendarDate { year: 1900, month: 5, day: 6 };
    let late = CalendarDate { year: 1901, month: 5, day: 6 };
    assert_eq!(show_short_year_date(Some(early)), "");
    assert_eq!(show_short_year_date(Some(late)), "06-05-1901");
    assert_eq!(show_short_year_date(None), "");
}

#[test]
fn second_reading_counts_only_without_hint_and_first_reading() {
    let first = CalendarDate { year: 1980, month: 1, day: 1 };
    let second = CalendarDate { year: 2015, month: 2, day: 3 };
    assert_eq!(choose_date(Some(first), false, Some(second)), "01-01-1980");
    assert_eq!(choose_date(Some(first), true, Some(second)), "01-01-1980");
    assert_eq!(choose_date(None, false, Some(second)), "03-02-2015");
    assert_eq!(choose_date(None, true, Some(second)), "");
    assert_eq!(choose_date(None, false, None), "");
    let early = CalendarDate { year: 1900, month: 2, day: 3 };
    assert_eq!(choose_date(None, false, Some(early)), "");
    assert_eq!(choose_date(Some(early), false, None), "03-02-1900");
}

#[test]
fn missing_modification_time_gives_empty_text() {
    assert_eq!(format_modified_datetime(None, 0), "");
    assert_eq!(format_modified_datetime(None, 3600), "");
    assert_eq!(modified_text(None), "");
    assert_eq!(modified_text(Some(String::from("x"))), "x");
}

#[test]
fn modification_time_is_shown_at_the_offset_given() {
    let time = Some(Timestamp { seconds: 1_700_000_000, nanos: 0 });
    assert_eq!(format_modified_datetime(time, 0), "14-11-2023 22:13:20");
    assert_eq!(format_modified_datetime(time, 3600), "14-11-2023 23:13:20");
    assert_eq!(format_modified_datetime(time, -18_000), "14-11-2023 17:13:20");
    assert_eq!(format_modified_datetime(time, 86_400), "");
}

#[test]
fn time_after_the_epoch_is_taken_as_it_is() {
    assert_eq!(
        timestamp_from_epoch_offset(true, 1_700_000_000, 250),
        Some(Timestamp { seconds: 1_700_000_000, nanos: 250 })
    );
    assert_eq!(timestamp_from_epoch_offset(true, 0, 0), Some(Timestamp { seconds: 0, nanos: 0 }));
}

#[test]
fn time_before_the_epoch_counts_its_fraction_forward() {
    assert_eq!(
        timestamp_from_epoch_offset(false, 10, 0),
        Some(Timestamp { seconds: -10, nanos: 0 })
    );
    assert_eq!(
        timestamp_from_epoch_offset(false, 10, 1),
        Some(Timestamp { seconds: -11, nanos: 999_999_999 })
    );
    assert_eq!(
        timestamp_from_epoch_offset(false, 0, 400_000_000),
        Some(Timestamp { seconds: -1, nanos: 600_000_000 })
    );
}

#[test]
fn time_beyond_the_range_has_no_timestamp() {
    assert_eq!(timestamp_from_epoch_offset(true, 5, 1_000_000_000), None);
    assert_eq!(timestamp_from_epoch_offset(true, i64::MAX as u64 + 1, 0), None);
    assert_eq!(timestamp_from_epoch_offset(false, u64::MAX, 0), None);
    assert_eq!(
        timestamp_from_epoch_offset(true, i64::MAX as u64, 7),
        Some(Timestamp { seconds: i64::MAX, nanos: 7 })
    );
    assert_eq!(
        timestamp_from_epoch_offset(false, i64::MAX as u64, 1),
        Some(Timestamp { seconds: i64::MIN, nanos: 999_999_999 })
    );
}

fn has_time_shape(text: &str) -> bool {
    let bytes = text.as_bytes();
    let n = bytes.len();
    if n < 19 {
        return false;
    }
    let digits = |from: usize, to: usize| bytes[from..to].iter().all(|b| b.is_ascii_digit());
    let year = &bytes[6..n - 9];
    let year_digits = if year[0] == b'+' || year[0] == b'-' { &year[1..] } else { year };
    digits(0, 2)
        && bytes[2] == b'-'
        && digits(3, 5)
        && bytes[5] == b'-'
        && year_digits.len() >= 4
        && year_digits.iter().all(|b| b.is_ascii_digit())
        && bytes[n - 9] == b' '
        && digits(n - 8, n - 6)
        && bytes[n - 6] == b':'
        && digits(n - 5, n - 3)
        && bytes[n - 3] == b':'
        && digits(n - 2, n)
}

fn modified_at(seconds: i64, nanos: u32) -> String {
    format_modified_datetime(Some(Timestamp { seconds, nanos }), 5400)
}

#[test]
fn known_modification_time_is_shown_in_the_fixed_form() {
    for seconds in [0i64, 1, 59, 86_399, 951_782_400, 1_700_000_000, -1, -86_400, -62_135_596_800] {
        assert!(has_time_shape(&modified_at(seconds, 0)));
        assert!(has_time_shape(&modified_at(seconds, 999_999_999)));
    }
}

#[test]
fn modification_time_is_shown_up_to_the_ends_of_the_calendar() {
    assert!(has_time_shape(&modified_at(8_210_266_876_799, 0)));
    assert!(has_time_shape(&modified_at(8_210_266_876_799, 999_999_999)));
    assert!(has_time_shape(&modified_at(-8_334_601_228_800, 0)));
    assert_eq!(modified_at(8_210_266_876_800, 0), "");
    assert_eq!(modified_at(-8_334_601_228_801, 0), "");
    assert_eq!(modified_at(i64::MAX, 0), "");
    assert_eq!(modified_at(i64::MIN, 0), "");
}

#[test]
fn nanoseconds_beyond_a_second_count_only_as_a_leap_second() {
    assert!(has_time_shape(&modified_at(59, 1_000_000_000)));
    assert!(has_time_shape(&modified_at(1_700_000_039, 1_999_999_999)));
    assert!(has_time_shape(&modified_at(-1, 1_500_000_000)));
    assert!(has_time_shape(&modified_at(8_210_266_876_799, 1_999_999_999)));
    assert_eq!(modified_at(58, 1_000_000_000), "");
    assert_eq!(modified_at(0, 1_000_000_000), "");
    assert_eq!(modified_at(-2, 1_000_000_000), "");
    assert_eq!(modified_at(59, 2_000_000_000), "");
    assert_eq!(modified_at(59, u32::MAX), "");
}

#[test]
fn time_is_shown_at_the_given_offset() {
    let time = Timestamp { seconds: 1_700_000_000, nanos: 0 };
    assert_eq!(show_time_at(time, 0), "14-11-2023 22:13:20");
    assert_eq!(show_time_at(time, 3600), "14-11-2023 23:13:20");
    assert_eq!(show_time_at(time, 2 * 3600), "15-11-2023 00:13:20");
    assert_eq!(show_time_at(time, -8 * 3600), "14-11-2023 14:13:20");
    assert_eq!(show_time_at(time, 19_800), "15-11-2023 03:43:20");
    assert_eq!(show_time_at(time, 1), "14-11-2023 22:13:21");
    let epoch = Timestamp { seconds: 0, nanos: 999_999_999 };
    assert_eq!(show_time_at(epoch, 0), "01-01-1970 00:00:00");
    assert_eq!(show_time_at(epoch, -1), "31-12-1969 23:59:59");
    assert_eq!(show_time_at(Timestamp { seconds: -62_135_596_800, nanos: 0 }, 0), "01-01-0001 00:00:00");
    assert_eq!(show_time_at(Timestamp { seconds: 951_782_400, nanos: 0 }, 0), "29-02-2000 00:00:00");
}

#[test]
fn leap_second_is_shown_as_second_sixty() {
    assert_eq!(show_time_at(Timestamp { seconds: 59, nanos: 1_000_000_000 }, 0), "01-01-1970 00:00:60");
    assert_eq!(show_time_at(Timestamp { seconds: 59, nanos: 999_999_999 }, 0), "01-01-1970 00:00:59");
}

#[test]
fn offset_of_a_day_or_more_gives_no_text() {
    let time = Timestamp { seconds: 1_700_000_000, nanos: 0 };
    assert_eq!(show_time_at(time, 86_400), "");
    assert_eq!(show_time_at(time, -86_400), "");
    assert_eq!(show_time_at(time, i32::MAX), "");
    assert_eq!(show_time_at(time, i32::MIN), "");
    assert_eq!(show_time_at(time, 86_399), "15-11-2023 22:13:19");
    assert_eq!(show_time_at(time, -86_399), "13-11-2023 22:13:21");
}

#[test]
fn time_beyond_the_calendar_gives_no_text_at_any_offset() {
    assert_eq!(show_time_at(Timestamp { seconds: 8_210_266_876_800, nanos: 0 }, 0), "");
    assert_eq!(show_time_at(Timestamp { seconds: -8_334_601_228_801, nanos: 0 }, 3600), "");
    assert_eq!(show_time_at(Timestamp { seconds: 0, nanos: 1_000_000_000 }, 0), "");
    assert_eq!(
        show_time_at(Timestamp { seconds: 8_210_266_876_799, nanos: 0 }, 0),
        "31-12-+262142 23:59:59"
    );
    assert_eq!(
        show_time_at(Timestamp { seconds: -8_334_601_228_800, nanos: 0 }, 0),
        "01-01--262143 00:00:00"
    );
    assert!(has_time_shape(&show_time_at(Timestamp { seconds: 8_210_266_876_799, nanos: 0 }, 86_399)));
    assert!(has_time_shape(&show_time_at(Timestamp { seconds: -8_334_601_228_800, nanos: 0 }, -86_399)));
}

#[test]
fn two_digit_year_is_read_into_the_window_of_chrono() {
    assert_eq!(format_date("700101", None), "01-01-1970");
    assert_eq!(format_date("991231", None), "31-12-1999");
    assert_eq!(format_date("000229", None), "29-02-2000");
    assert_eq!(format_date("690101", None), "01-01-2069");
    assert_eq!(attempt_ambiguous_date_parse("680615"), "15-06-2068");
}

#[test]
fn date_read_with_a_two_digit_year_has_a_year_of_four_digits() {
    for text in ["800101", "000101", "691231", "700101", "991231", "150203", "8001", "x", "", "801301"] {
        let shown = attempt_ambiguous_date_parse(text);
        assert_eq!(format_date(text, None), shown);
        if !shown.is_empty() {
            let bytes = shown.as_bytes();
            assert_eq!(bytes.len(), 10);
            assert_eq!(bytes[2], b'-');
            assert_eq!(bytes[5], b'-');
            let year: u32 = shown[6..].parse().unwrap();
            assert!(year > 1900);
            assert!((1970..=2069).contains(&year));
        }
    }
}
