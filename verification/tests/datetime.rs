use suntime::datetime::DateTime;
use suntime::datetime::SECONDS_PER_DAY;

fn sample() -> DateTime {
    DateTime { year: 2024, month: 3, day: 9, hour: 21, minute: 7, second: 24 }
}

#[test]
fn now_reads_a_clock_face() {
    let t = DateTime::now();
    assert!(t.year >= 1970);
    assert!(1 <= t.month && t.month <= 12);
    assert!(1 <= t.day && t.day <= 31);
    assert!(t.hour < 24);
    assert!(t.minute < 60);
    assert!(t.second < 60);
}

#[test]
fn now_lies_on_the_calendar() {
    let n = DateTime::now().day_of_year();
    assert!(1 <= n && n <= 366);
}

#[test]
fn date_sets_the_three_date_fields() {
    let d = DateTime::date(1999, 12, 31);
    assert_eq!(d.year, 1999);
    assert_eq!(d.month, 12);
    assert_eq!(d.day, 31);
    assert!(d.hour < 24);
    assert!(d.minute < 60);
    assert!(d.second < 60);
}

#[test]
fn date_takes_fields_off_the_calendar() {
    let d = DateTime::date(-5, 14, 0);
    assert_eq!(d.year, -5);
    assert_eq!(d.month, 14);
    assert_eq!(d.day, 0);
}

#[test]
fn on_date_keeps_the_time() {
    let d = sample().on_date(2030, 1, 2);
    assert_eq!(d, DateTime { year: 2030, month: 1, day: 2, hour: 21, minute: 7, second: 24 });
}

#[test]
fn day_of_year_reads_the_date_fields() {
    assert_eq!(sample().day_of_year(), 69);
    assert_eq!(sample().on_date(2023, 3, 9).day_of_year(), 68);
    assert_eq!(sample().on_date(2024, 6, 21).day_of_year(), 173);
}

#[test]
fn day_of_year_ignores_the_time() {
    let early = DateTime { year: 2024, month: 6, day: 21, hour: 0, minute: 0, second: 0 };
    let late = DateTime { year: 2024, month: 6, day: 21, hour: 23, minute: 59, second: 59 };
    assert_eq!(early.day_of_year(), late.day_of_year());
}

#[test]
fn second_of_day_splits_into_hour_minute_second() {
    let base = DateTime { year: 2024, month: 3, day: 9, hour: 1, minute: 2, second: 3 };
    // 21 * 3600 + 7 * 60 + 24 = 76044
    assert_eq!(base.at_second_of_day(76044), Some(sample()));
}

#[test]
fn second_of_day_at_its_bounds() {
    let d = sample();
    assert_eq!(
        d.at_second_of_day(0),
        Some(DateTime { year: 2024, month: 3, day: 9, hour: 0, minute: 0, second: 0 })
    );
    assert_eq!(
        d.at_second_of_day(59),
        Some(DateTime { year: 2024, month: 3, day: 9, hour: 0, minute: 0, second: 59 })
    );
    assert_eq!(
        d.at_second_of_day(60),
        Some(DateTime { year: 2024, month: 3, day: 9, hour: 0, minute: 1, second: 0 })
    );
    assert_eq!(
        d.at_second_of_day(3599),
        Some(DateTime { year: 2024, month: 3, day: 9, hour: 0, minute: 59, second: 59 })
    );
    assert_eq!(
        d.at_second_of_day(3600),
        Some(DateTime { year: 2024, month: 3, day: 9, hour: 1, minute: 0, second: 0 })
    );
    assert_eq!(
        d.at_second_of_day(86399),
        Some(DateTime { year: 2024, month: 3, day: 9, hour: 23, minute: 59, second: 59 })
    );
}

#[test]
fn second_of_day_past_midnight_is_refused() {
    assert_eq!(SECONDS_PER_DAY, 86400);
    assert_eq!(sample().at_second_of_day(86400), None);
    assert_eq!(sample().at_second_of_day(86401), None);
    assert_eq!(sample().at_second_of_day(u32::MAX), None);
}

#[test]
fn every_second_of_the_day_adds_back_up() {
    let d = sample();
    let mut s: u32 = 0;
    while s < SECONDS_PER_DAY {
        let t = d.at_second_of_day(s).unwrap();
        assert!(t.hour < 24 && t.minute < 60 && t.second < 60);
        assert_eq!(t.hour * 3600 + t.minute * 60 + t.second, s);
        assert_eq!((t.year, t.month, t.day), (2024, 3, 9));
        s += 1;
    }
}

#[test]
fn shift_east_wraps_past_midnight() {
    let local = sample().shifted_by_hours(8);
    assert_eq!(local, DateTime { year: 2024, month: 3, day: 9, hour: 5, minute: 7, second: 24 });
}

#[test]
fn shift_west_wraps_before_midnight() {
    let d = DateTime { year: 2024, month: 3, day: 9, hour: 3, minute: 0, second: 0 };
    assert_eq!(d.shifted_by_hours(-5).hour, 22);
    assert_eq!(d.shifted_by_hours(-3).hour, 0);
    assert_eq!(d.shifted_by_hours(-4).hour, 23);
}

#[test]
fn shift_without_wrap() {
    let d = DateTime { year: 2024, month: 3, day: 9, hour: 9, minute: 30, second: 0 };
    assert_eq!(d.shifted_by_hours(8).hour, 17);
    assert_eq!(d.shifted_by_hours(0), d);
    assert_eq!(d.shifted_by_hours(14).hour, 23);
    assert_eq!(d.shifted_by_hours(15).hour, 0);
}

#[test]
fn shift_by_whole_days_changes_nothing() {
    let d = sample();
    assert_eq!(d.shifted_by_hours(24), d);
    assert_eq!(d.shifted_by_hours(-24), d);
    assert_eq!(d.shifted_by_hours(240), d);
}

#[test]
fn shift_there_and_back() {
    let d = sample();
    let mut offset: i32 = -30;
    while offset <= 30 {
        assert_eq!(d.shifted_by_hours(offset).shifted_by_hours(-offset), d);
        offset += 1;
    }
}

#[test]
fn two_shifts_are_one_shift_by_the_sum() {
    let d = sample();
    let mut a: i32 = -26;
    while a <= 26 {
        let mut b: i32 = -26;
        while b <= 26 {
            assert_eq!(d.shifted_by_hours(a).shifted_by_hours(b), d.shifted_by_hours(a + b));
            b += 1;
        }
        a += 1;
    }
}

#[test]
fn shift_takes_the_extreme_offsets() {
    let d = DateTime { year: 2024, month: 3, day: 9, hour: 0, minute: 0, second: 0 };
    // 2147483647 = 24 * 89478485 + 7, and -2147483648 = 24 * -89478486 + 16
    assert_eq!(d.shifted_by_hours(i32::MAX).hour, 7);
    assert_eq!(d.shifted_by_hours(i32::MIN).hour, 16);
}

#[test]
fn shift_brings_an_hour_off_the_face_back_onto_it() {
    let d = DateTime { year: 2024, month: 3, day: 9, hour: 30, minute: 0, second: 0 };
    assert_eq!(d.shifted_by_hours(0).hour, 6);
    let far = DateTime { year: 2024, month: 3, day: 9, hour: u32::MAX, minute: 0, second: 0 };
    // 4294967295 = 24 * 178956970 + 15
    assert_eq!(far.shifted_by_hours(0).hour, 15);
    assert_eq!(far.shifted_by_hours(i32::MAX).hour, 22);
}

#[test]
fn shift_does_not_roll_the_date() {
    let d = DateTime { year: 2024, month: 12, day: 31, hour: 23, minute: 59, second: 59 };
    let s = d.shifted_by_hours(8);
    assert_eq!(s, DateTime { year: 2024, month: 12, day: 31, hour: 7, minute: 59, second: 59 });
}
