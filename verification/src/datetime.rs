//! A calendar date with a time of day, as six plain integers.

use crate::calendar::day_of_year;
use crate::calendar::lemma_ordinal_range;
use crate::calendar::ordinal;
use crate::clock::local_now;
use crate::text::signed_zero_padded;
use crate::text::with_signed_zero_padded;
use crate::text::with_zero_padded;
use crate::text::zero_padded;
use vstd::prelude::*;

verus! {

/// The number of seconds in a day.
pub const SECONDS_PER_DAY: u32 = 86400;

/// The hour that a clock shows `offset` hours after it showed `hour`.
pub open spec fn shifted_hour(hour: int, offset: int) -> int {
    (hour + offset) % 24
}

/// A calendar date and a time of day.
///
/// The fields are public and carry no invariant: a value may hold a day that
/// its month does not have, or an hour past 23. `is_time_of_day` and
/// `has_calendar_fields` say when the fields are in their usual ranges.
#[derive(Clone, Copy, Debug, PartialEq, Eq, Structural)]
pub struct DateTime {
    pub year: i32,
    pub month: u32,
    pub day: u32,
    pub hour: u32,
    pub minute: u32,
    pub second: u32,
}

impl DateTime {
    /// The hour, minute and second lie on a clock face.
    pub open spec fn is_time_of_day(&self) -> bool {
        self.hour < 24 && self.minute < 60 && self.second < 60
    }

    /// The month is one of twelve and the day is at most 31.
    pub open spec fn has_calendar_fields(&self) -> bool {
        1 <= self.month <= 12 && 1 <= self.day <= 31
    }

    /// The seconds that have passed since midnight.
    pub open spec fn second_of_day(&self) -> int {
        self.hour * 3600 + self.minute * 60 + self.second
    }

    /// `self` and `other` fall on the same calendar date.
    pub open spec fn same_date(&self, other: DateTime) -> bool {
        self.year == other.year && self.month == other.month && self.day == other.day
    }

    /// `self` and `other` show the same time of day.
    pub open spec fn same_time(&self, other: DateTime) -> bool {
        self.hour == other.hour && self.minute == other.minute && self.second == other.second
    }

    /// The date and time in writing: the year in at least four characters,
    /// every other field in at least two, as in `2024-03-09 05:07:24`.
    pub open spec fn text(&self) -> Seq<char> {
        signed_zero_padded(self.year as int, 4) + seq!['-'] + zero_padded(self.month as nat, 2)
            + seq!['-'] + zero_padded(self.day as nat, 2) + seq![' '] + zero_padded(
            self.hour as nat,
            2,
        ) + seq![':'] + zero_padded(self.minute as nat, 2) + seq![':'] + zero_padded(
            self.second as nat,
            2,
        )
    }

    /// The local date and time as the machine's clock gives it.
    pub fn now() -> (r: DateTime)
        ensures
            r.has_calendar_fields(),
            r.is_time_of_day(),
    {
        local_now()
    }

    /// The given date, at the time of day that the machine's clock shows.
    pub fn date(year: i32, month: u32, day: u32) -> (r: DateTime)
        ensures
            r.year == year,
            r.month == month,
            r.day == day,
            r.is_time_of_day(),
    {
        Self::now().on_date(year, month, day)
    }

    /// The same time of day on another date.
    pub fn on_date(&self, year: i32, month: u32, day: u32) -> (r: DateTime)
        ensures
            r.year == year,
            r.month == month,
            r.day == day,
            r.same_time(*self),
    {
        DateTime { year, month, day, hour: self.hour, minute: self.minute, second: self.second }
    }

    /// The closed-form day of the year of this date.
    pub fn day_of_year(&self) -> (n: i64)
        ensures
            n == ordinal(self.year as int, self.month as int, self.day as int),
            self.has_calendar_fields() ==> 1 <= n <= 366,
    {
        proof {
            if self.has_calendar_fields() {
                lemma_ordinal_range(self.year as int, self.month as int, self.day as int);
            }
        }
        day_of_year(self.year, self.month, self.day)
    }

    /// The same date at `second_of_day` seconds after midnight, or `None`
    /// where that many seconds do not fit in one day.
    pub fn at_second_of_day(&self, second_of_day: u32) -> (r: Option<DateTime>)
        ensures
            r is Some <==> second_of_day < SECONDS_PER_DAY,
            r matches Some(t) ==> t.same_date(*self) && t.is_time_of_day() && t.second_of_day()
                == second_of_day,
    {
        if second_of_day < SECONDS_PER_DAY {
            Some(
                DateTime {
                    year: self.year,
                    month: self.month,
                    day: self.day,
                    hour: second_of_day / 3600,
                    minute: (second_of_day / 60) % 60,
                    second: second_of_day % 60,
                },
            )
        } else {
            None
        }
    }

    /// The same date and minute with the hour moved by `offset` hours and
    /// wrapped onto the clock face. The date is not rolled over.
    pub fn shifted_by_hours(&self, offset: i32) -> (r: DateTime)
        ensures
            r.hour == shifted_hour(self.hour as int, offset as int),
            r.same_date(*self),
            r.minute == self.minute,
            r.second == self.second,
    {
        let sum: i64 = self.hour as i64 + offset as i64;
        let rem: i64 = sum % 24;
        let hour: i64 = if rem < 0 { rem + 24 } else { rem };
        DateTime {
            year: self.year,
            month: self.month,
            day: self.day,
            hour: hour as u32,
            minute: self.minute,
            second: self.second,
        }
    }

    /// Writes the date and time out, zero-padded.
    pub fn to_text(&self) -> (s: String)
        ensures
            s@ == self.text(),
    {
        proof {
            reveal_strlit("-");
            reveal_strlit(" ");
            reveal_strlit(":");
        }
        let s = with_signed_zero_padded(String::new(), self.year, 4);
        let s = with_zero_padded(s.concat("-"), self.month as u64, 2);
        let s = with_zero_padded(s.concat("-"), self.day as u64, 2);
        let s = with_zero_padded(s.concat(" "), self.hour as u64, 2);
        let s = with_zero_padded(s.concat(":"), self.minute as u64, 2);
        let s = with_zero_padded(s.concat(":"), self.second as u64, 2);
        assert(s@ =~= self.text());
        s
    }
}

/// A clock face shows each second of the day once: two times of day that
/// lie equally many seconds after midnight are the same time.
pub proof fn lemma_second_of_day_names_one_time(a: DateTime, b: DateTime)
    requires
        a.is_time_of_day(),
        b.is_time_of_day(),
        a.second_of_day() == b.second_of_day(),
    ensures
        a.same_time(b),
{
}

/// The fields of a time of day are the quotients and remainders of its
/// seconds after midnight: whole hours first, then the whole minutes of
/// what is left of the hour, then the seconds that are left of the minute.
pub proof fn lemma_second_of_day_splits(a: DateTime)
    requires
        a.is_time_of_day(),
    ensures
        a.hour == a.second_of_day() / 3600,
        a.minute == (a.second_of_day() % 3600) / 60,
        a.second == a.second_of_day() % 60,
{
}

/// A time of day lies less than a day after midnight.
pub proof fn lemma_second_of_day_range(a: DateTime)
    requires
        a.is_time_of_day(),
    ensures
        0 <= a.second_of_day() < SECONDS_PER_DAY,
{
}

/// A shifted hour is on the clock face, whatever hour and offset went in.
pub proof fn lemma_shifted_hour_range(hour: int, offset: int)
    ensures
        0 <= shifted_hour(hour, offset) < 24,
{
}

/// Two shifts in a row are one shift by the sum of the offsets.
pub proof fn lemma_shifts_add_up(hour: int, first: int, second: int)
    ensures
        shifted_hour(shifted_hour(hour, first), second) == shifted_hour(hour, first + second),
{
}

/// Shifting an hour of the clock face and shifting it back by the same
/// offset returns the hour.
pub proof fn lemma_shift_and_back(hour: int, offset: int)
    requires
        0 <= hour < 24,
    ensures
        shifted_hour(shifted_hour(hour, offset), -offset) == hour,
{
}

} // verus!
