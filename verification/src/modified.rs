//! Dates taken from the filesystem's last-modification time.
//!
//! A modification time is handed in as whole seconds since the epoch. It is
//! shown in the local time zone of the machine, which the verified code
//! cannot know: [`format_modified_date`] states what holds whichever offset
//! the zone has, and [`format_instant`] is exact for an offset that is given.

use vstd::prelude::*;
use crate::timestamp::local_offset;
use crate::timestamp::render_instant;
use crate::timestamp::rendered_instant;
use crate::timestamp::representable_instant;

verus! {

/// The date of the instant `seconds` after the epoch, seen at `offset`
/// seconds east of UTC and rendered under `template`.
pub open spec fn instant_date(seconds: u64, offset: int, template: Seq<char>) -> Option<Seq<char>> {
    if seconds > i64::MAX {
        None
    } else {
        rendered_instant(seconds as int, offset, template)
    }
}

/// Whether a time zone can be `offset` seconds east of UTC: less than a day
/// either way.
pub open spec fn valid_offset(offset: int) -> bool {
    -86_400 < offset < 86_400
}

/// Whether the instant `seconds` after the epoch can be shown as a calendar
/// timestamp.
pub open spec fn in_calendar_range(seconds: u64) -> bool {
    seconds <= i64::MAX && representable_instant(seconds as int)
}

/// Whether `outcome` is a date that the filesystem resolver may return for
/// a file last modified at `modified`: nothing where the time could not be
/// read or is out of range, and else the instant rendered at some offset
/// that a time zone can have.
pub open spec fn modified_date_allows(
    modified: Option<u64>,
    template: Seq<char>,
    outcome: Option<Seq<char>>,
) -> bool {
    match modified {
        None => outcome is None,
        Some(seconds) => if in_calendar_range(seconds) {
            exists|offset: int|
                valid_offset(offset) && outcome == #[trigger] instant_date(
                    seconds,
                    offset,
                    template,
                )
        } else {
            outcome is None
        },
    }
}

/// Renders the instant `seconds` after the epoch as it reads on a clock
/// `offset` seconds east of UTC.
///
/// Returns `None` where no time zone has this offset, where the instant is
/// out of the calendar's range, and where `date_format` cannot be rendered.
pub fn format_instant(seconds: u64, offset: i32, date_format: &str) -> (r: Option<String>)
    ensures
        r.deep_view() == instant_date(seconds, offset as int, date_format@),
        !valid_offset(offset as int) ==> r is None,
        !in_calendar_range(seconds) ==> r is None,
{
    if seconds > i64::MAX as u64 {
        None
    } else {
        render_instant(seconds as i64, offset, date_format)
    }
}

/// Resolves the date of a file from its last-modification time, given in
/// whole seconds since the epoch, and renders it in local time under
/// `date_format`.
///
/// `modified` is `None` where the time could not be read. The result is
/// `None` then, and where the instant is out of the calendar's range.
pub fn format_modified_date(modified: Option<u64>, date_format: &str) -> (r: Option<String>)
    ensures
        modified_date_allows(modified, date_format@, r.deep_view()),
{
    match modified {
        None => None,
        Some(seconds) => {
            if seconds > i64::MAX as u64 {
                None
            } else {
                match local_offset(seconds as i64) {
                    None => None,
                    Some(offset) => {
                        let r = render_instant(seconds as i64, offset, date_format);
                        assert(valid_offset(offset as int) && r.deep_view() == instant_date(
                            seconds,
                            offset as int,
                            date_format@,
                        ));
                        r
                    },
                }
            }
        },
    }
}

} // verus!
