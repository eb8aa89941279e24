//! The one place where the machine's clock is read.

use crate::datetime::DateTime;
use chrono::Datelike;
use chrono::Timelike;
use vstd::prelude::*;

verus! {

/// Reads the local date and time with `chrono::Local::now` and copies the
/// six fields that chrono reports for it: `Datelike::year`, `month` and
/// `day`, and `Timelike::hour`, `minute` and `second`.
///
/// Nothing of this is proved. The contract repeats the ranges that chrono
/// documents for `month`, `day`, `hour`, `minute` and `second`; chrono keeps
/// a leap second in its nanosecond field, so `second` never reads 60. Which
/// instant comes back depends on the clock and the time zone of the machine,
/// and two calls may differ. chrono panics where the system clock stands
/// before 1970 or the zone data cannot place the instant.
#[verifier::external_body]
pub(crate) fn local_now() -> (r: DateTime)
    ensures
        r.has_calendar_fields(),
        r.is_time_of_day(),
{
    let t = chrono::Local::now();
    DateTime {
        year: t.year(),
        month: t.month(),
        day: t.day(),
        hour: t.hour(),
        minute: t.minute(),
        second: t.second(),
    }
}

} // verus!
