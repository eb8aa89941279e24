//! The day of the year, by the closed form that the sunrise equations use.

use vstd::prelude::*;

verus! {

/// The closed-form day of the year.
///
/// Every division rounds down. The third quotient looks at the year modulo
/// four only, so the form knows a leap year as a year divisible by four and
/// has no century rule. It is defined for every triple of integers, whether
/// or not they name a date that exists.
pub open spec fn ordinal(year: int, month: int, day: int) -> int {
    let n1 = (275 * month) / 9;
    let n2 = (month + 9) / 12;
    let n3 = 1 + (year - 4 * (year / 4) + 2) / 3;
    n1 - n2 * n3 + day - 30
}

/// Whether the closed form treats `year` as a leap year.
pub open spec fn is_leap(year: int) -> bool {
    year % 4 == 0
}

/// The number of days of `month`, counted from 1 for January.
pub open spec fn days_in_month(month: int, leap: bool) -> int {
    if month == 2 {
        if leap { 29 } else { 28 }
    } else if month == 4 || month == 6 || month == 9 || month == 11 {
        30
    } else {
        31
    }
}

/// The number of days of a year.
pub open spec fn days_in_year(leap: bool) -> int {
    if leap { 366 } else { 365 }
}

/// The number of days of the year that come before the first of `month`.
pub open spec fn days_before_month(month: int, leap: bool) -> int
    decreases month,
{
    if month <= 1 {
        0
    } else {
        days_before_month(month - 1, leap) + days_in_month(month - 1, leap)
    }
}

/// Whether `month` and `day` name a day that exists in `year`, with the
/// leap years of the closed form.
pub open spec fn is_date(year: int, month: int, day: int) -> bool {
    1 <= month <= 12 && 1 <= day <= days_in_month(month, is_leap(year))
}

/// Computes the closed-form day of the year. Every input is taken: the
/// intermediate values are wide enough for any month and day.
pub fn day_of_year(year: i32, month: u32, day: u32) -> (n: i64)
    ensures
        n == ordinal(year as int, month as int, day as int),
{
    let m: i64 = month as i64;
    let n1: i64 = (275 * m) / 9;
    let n2: i64 = (m + 9) / 12;
    // 2^31 is a multiple of four, so the shifted year keeps its remainder
    // and is never negative.
    let in_cycle: i64 = (year as i64 + 2147483648) % 4;
    let n3: i64 = 1 + (in_cycle + 2) / 3;
    let leap_correction: i64 = if in_cycle == 0 { n2 } else { 2 * n2 };
    assert(leap_correction == n2 * n3) by (nonlinear_arith)
        requires
            in_cycle == 0 ==> n3 == 1 && leap_correction == n2,
            in_cycle != 0 ==> n3 == 2 && leap_correction == 2 * n2,
    ;
    n1 - leap_correction + day as i64 - 30
}

/// On months 1 to 12 the closed form counts calendar days: it is the number
/// of days before the month plus the day of the month.
pub proof fn lemma_ordinal_counts_days(year: int, month: int, day: int)
    requires
        1 <= month <= 12,
    ensures
        ordinal(year, month, day) == days_before_month(month, is_leap(year)) + day,
{
    reveal_with_fuel(days_before_month, 13);
    let n3 = 1 + (year - 4 * (year / 4) + 2) / 3;
    assert(n3 == if is_leap(year) { 1int } else { 2int });
    let n2 = (month + 9) / 12;
    assert(n2 * n3 == if month <= 2 { 0 } else { n3 }) by (nonlinear_arith)
        requires
            month <= 2 ==> n2 == 0,
            month > 2 ==> n2 == 1,
    ;
}

/// The closed form stays on the calendar: with a month from 1 to 12 and a
/// day from 1 to 31 it lies between 1 and 366, and on a date that exists it
/// does not pass the length of the year.
pub proof fn lemma_ordinal_range(year: int, month: int, day: int)
    requires
        1 <= month <= 12,
        1 <= day <= 31,
    ensures
        1 <= ordinal(year, month, day) <= 366,
        is_date(year, month, day) ==> ordinal(year, month, day) <= days_in_year(is_leap(year)),
{
    reveal_with_fuel(days_before_month, 13);
    lemma_ordinal_counts_days(year, month, day);
}

/// The closed form numbers the days of a year in calendar order: of two
/// dates of one year, the earlier has the smaller ordinal.
pub proof fn lemma_ordinal_orders_dates(year: int, m1: int, d1: int, m2: int, d2: int)
    requires
        is_date(year, m1, d1),
        is_date(year, m2, d2),
        m1 < m2 || (m1 == m2 && d1 < d2),
    ensures
        ordinal(year, m1, d1) < ordinal(year, m2, d2),
{
    reveal_with_fuel(days_before_month, 13);
    lemma_ordinal_counts_days(year, m1, d1);
    lemma_ordinal_counts_days(year, m2, d2);
}

} // verus!
