//! Calendar timestamps and how they are parsed and rendered.
//!
//! Parsing and rendering are done by `chrono`. The functions that call it are
//! marked `external_body`: their contracts are taken on trust, and each names
//! the result of the call so that the verified code around it can say exactly
//! what it returns.

use vstd::prelude::*;
use chrono::Datelike;
use chrono::Timelike;
use chrono::TimeZone;

verus! {

/// The fixed textual encoding of a capture date: `YYYY:MM:DD HH:MM:SS`.
pub const CAPTURE_PATTERN: &'static str = "%Y:%m:%d %H:%M:%S";

/// The template used when the caller gives none: `YYYY-MM-DD_HH.MM.SS`.
pub const DEFAULT_TEMPLATE: &'static str = "%Y-%m-%d_%H.%M.%S";

/// A calendar date and time of day with no time zone attached.
///
/// A leap second is held as second 59 with a nanosecond of one thousand
/// million or more.
#[derive(Clone, Copy, Debug, PartialEq, Eq, Structural)]
pub struct CaptureDate {
    pub year: i32,
    pub month: u32,
    pub day: u32,
    pub hour: u32,
    pub minute: u32,
    pub second: u32,
    pub nanosecond: u32,
}

/// What `chrono::NaiveDateTime::parse_from_str` makes of `text` under
/// `pattern`: the timestamp it reads, or `None` where it reports an error.
pub uninterp spec fn parsed_date_time(text: Seq<char>, pattern: Seq<char>) -> Option<CaptureDate>;

/// What `chrono` writes for the timestamp `date` under `template`: `None`
/// where the fields are no calendar timestamp or where the template holds a
/// specifier that cannot be rendered for a timestamp without a time zone.
pub uninterp spec fn rendered_date_time(date: CaptureDate, template: Seq<char>) -> Option<Seq<char>>;

/// Whether `chrono` can hold the instant `seconds` after the epoch
/// (before it, if negative) as a calendar timestamp.
pub uninterp spec fn representable_instant(seconds: int) -> bool;

/// What `chrono` writes under `template` for the instant `seconds` after the
/// epoch, seen at `offset` seconds east of UTC: `None` where the instant or
/// the offset is out of range or the template cannot be rendered.
pub uninterp spec fn rendered_instant(seconds: int, offset: int, template: Seq<char>) -> Option<Seq<char>>;

/// Calls `chrono::NaiveDateTime::parse_from_str` and copies the fields of
/// the timestamp it returns. Trusted: the call's outcome depends on the two
/// texts alone, and an error is handed on as `None`.
#[verifier::external_body]
fn parse_date_time(text: &str, pattern: &str) -> (r: Option<CaptureDate>)
    ensures
        r == parsed_date_time(text@, pattern@),
{
    match chrono::NaiveDateTime::parse_from_str(text, pattern) {
        Ok(t) => Some(CaptureDate {
            year: t.year(),
            month: t.month(),
            day: t.day(),
            hour: t.hour(),
            minute: t.minute(),
            second: t.second(),
            nanosecond: t.nanosecond(),
        }),
        Err(_) => None,
    }
}

/// Rebuilds the `chrono::NaiveDateTime` that `date` stands for and writes
/// it with `format` and `write_to`. Trusted: the text depends on the fields
/// and the template alone; `None` where `chrono` refuses the fields or
/// reports a formatting error.
#[verifier::external_body]
pub(crate) fn render_date_time(date: &CaptureDate, template: &str) -> (r: Option<String>)
    ensures
        r.deep_view() == rendered_date_time(*date, template@),
{
    let day = chrono::NaiveDate::from_ymd_opt(date.year, date.month, date.day)?;
    let t = day.and_hms_nano_opt(date.hour, date.minute, date.second, date.nanosecond)?;
    let mut out = String::new();
    t.format(template).write_to(&mut out).ok()?;
    Some(out)
}

/// Asks `chrono` for the local time zone's offset from UTC, in seconds
/// east, at the instant `seconds` after the epoch: `Utc.timestamp_opt`,
/// then `with_timezone(&Local)`. Trusted: `None` exactly where `chrono`
/// cannot hold the instant; an offset is always less than a day. Which
/// offset comes back depends on the machine's time zone and is not stated.
#[verifier::external_body]
pub(crate) fn local_offset(seconds: i64) -> (r: Option<i32>)
    ensures
        r is Some <==> representable_instant(seconds as int),
        r matches Some(offset) ==> -86_400 < offset < 86_400,
{
    match chrono::Utc.timestamp_opt(seconds, 0).single() {
        Some(t) => Some(t.with_timezone(&chrono::Local).offset().local_minus_utc()),
        None => None,
    }
}

/// Rebuilds the `chrono::DateTime` for the instant at the given offset and
/// writes it with `format` and `write_to`. Trusted: the text depends on the
/// three arguments alone; `None` where `chrono` refuses the offset, which
/// `FixedOffset::east_opt` does for a day or more either way, or the
/// instant, which it does exactly where it cannot hold it, or reports a
/// formatting error.
#[verifier::external_body]
pub(crate) fn render_instant(seconds: i64, offset: i32, template: &str) -> (r: Option<String>)
    ensures
        r.deep_view() == rendered_instant(seconds as int, offset as int, template@),
        !(-86_400 < offset < 86_400) ==> r is None,
        !representable_instant(seconds as int) ==> r is None,
{
    let zone = chrono::FixedOffset::east_opt(offset)?;
    let t = zone.timestamp_opt(seconds, 0).single()?;
    let mut out = String::new();
    t.format(template).write_to(&mut out).ok()?;
    Some(out)
}

/// Reads a capture date written as `YYYY:MM:DD HH:MM:SS`.
pub fn parse_capture_date(text: &str) -> (r: Option<CaptureDate>)
    ensures
        r == parsed_date_time(text@, CAPTURE_PATTERN@),
{
    parse_date_time(text, CAPTURE_PATTERN)
}

} // verus!
