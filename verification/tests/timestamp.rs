use stampit::timestamp::parse_capture_date;
use stampit::timestamp::CaptureDate;
use stampit::timestamp::CAPTURE_PATTERN;
use stampit::timestamp::DEFAULT_TEMPLATE;

fn may_third() -> CaptureDate {
    CaptureDate { year: 2021, month: 5, day: 3, hour: 14, minute: 22, second: 10, nanosecond: 0 }
}

#[test]
fn patterns_are_the_documented_ones() {
    assert_eq!(CAPTURE_PATTERN, "%Y:%m:%d %H:%M:%S");
    assert_eq!(DEFAULT_TEMPLATE, "%Y-%m-%d_%H.%M.%S");
}

#[test]
fn capture_date_is_read_field_by_field() {
    assert_eq!(parse_capture_date("2021:05:03 14:22:10"), Some(may_third()));
}

#[test]
fn capture_date_at_the_end_of_a_year() {
    assert_eq!(
        parse_capture_date("1999:12:31 23:59:59"),
        Some(CaptureDate {
            year: 1999,
            month: 12,
            day: 31,
            hour: 23,
            minute: 59,
            second: 59,
            nanosecond: 0,
        })
    );
}

#[test]
fn capture_date_with_wrong_separators_is_refused() {
    assert_eq!(parse_capture_date("2021-05-03 14:22:10"), None);
    assert_eq!(parse_capture_date("2021:05:03T14:22:10"), None);
    assert_eq!(parse_capture_date("2021:05:03 14.22.10"), None);
}

#[test]
fn capture_date_that_is_no_calendar_day_is_refused() {
    assert_eq!(parse_capture_date("2021:02:30 10:00:00"), None);
    assert_eq!(parse_capture_date("2021:13:01 10:00:00"), None);
    assert_eq!(parse_capture_date("2021:00:10 10:00:00"), None);
    assert_eq!(parse_capture_date("2021:04:31 10:00:00"), None);
}

#[test]
fn capture_date_with_an_impossible_time_is_refused() {
    assert_eq!(parse_capture_date("2021:05:03 24:00:00"), None);
    assert_eq!(parse_capture_date("2021:05:03 12:60:00"), None);
    assert_eq!(parse_capture_date("2021:05:03 12:00:61"), None);
}

#[test]
fn capture_date_on_a_leap_day() {
    assert_eq!(
        parse_capture_date("2020:02:29 00:00:00"),
        Some(CaptureDate {
            year: 2020,
            month: 2,
            day: 29,
            hour: 0,
            minute: 0,
            second: 0,
            nanosecond: 0,
        })
    );
    assert_eq!(parse_capture_date("2021:02:29 00:00:00"), None);
}

#[test]
fn capture_date_with_missing_parts_is_refused() {
    assert_eq!(parse_capture_date(""), None);
    assert_eq!(parse_capture_date("2021:05:03"), None);
    assert_eq!(parse_capture_date("2021:05:03 14:22"), None);
    assert_eq!(parse_capture_date("0000:00:00 00:00:00"), None);
    assert_eq!(parse_capture_date("    :  :     :  :  "), None);
}

#[test]
fn capture_date_with_trailing_text_is_refused() {
    assert_eq!(parse_capture_date("2021:05:03 14:22:10Z"), None);
    assert_eq!(parse_capture_date("2021:05:03 14:22:10.5"), None);
}

#[test]
fn leap_second_is_held_as_an_overlong_last_second() {
    let date = parse_capture_date("2016:12:31 23:59:60").unwrap();
    assert_eq!(date.second, 59);
    assert_eq!(date.nanosecond, 1_000_000_000);
}
