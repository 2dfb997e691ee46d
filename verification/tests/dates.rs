use chrono::{Datelike, NaiveDate};
use exchange::date::{Date, Weekday, MAX_DAY_NUMBER, MIN_DAY_NUMBER};

fn weekday_of_chrono(day: chrono::Weekday) -> Weekday {
    match day {
        chrono::Weekday::Mon => Weekday::Mon,
        chrono::Weekday::Tue => Weekday::Tue,
        chrono::Weekday::Wed => Weekday::Wed,
        chrono::Weekday::Thu => Weekday::Thu,
        chrono::Weekday::Fri => Weekday::Fri,
        chrono::Weekday::Sat => Weekday::Sat,
        chrono::Weekday::Sun => Weekday::Sun,
    }
}

/// The weekday that the day number gives by counting from day 1, a Monday.
fn weekday_by_count(day: i32) -> Weekday {
    match (day as i64 - 1).rem_euclid(7) {
        0 => Weekday::Mon,
        1 => Weekday::Tue,
        2 => Weekday::Wed,
        3 => Weekday::Thu,
        4 => Weekday::Fri,
        5 => Weekday::Sat,
        _ => Weekday::Sun,
    }
}

#[test]
fn day_number_bounds_are_those_of_the_calendar() {
    assert_eq!(MIN_DAY_NUMBER, NaiveDate::MIN.num_days_from_ce());
    assert_eq!(MAX_DAY_NUMBER, NaiveDate::MAX.num_days_from_ce());
    assert!(NaiveDate::from_num_days_from_ce_opt(MIN_DAY_NUMBER - 1).is_none());
    assert!(NaiveDate::from_num_days_from_ce_opt(MAX_DAY_NUMBER + 1).is_none());
}

#[test]
fn from_day_number_accepts_exactly_the_calendar() {
    assert_eq!(Date::from_day_number(MIN_DAY_NUMBER).unwrap().day_number(), MIN_DAY_NUMBER);
    assert_eq!(Date::from_day_number(MAX_DAY_NUMBER).unwrap().day_number(), MAX_DAY_NUMBER);
    assert_eq!(Date::from_day_number(0).unwrap().day_number(), 0);
    assert!(Date::from_day_number(MIN_DAY_NUMBER - 1).is_none());
    assert!(Date::from_day_number(MAX_DAY_NUMBER + 1).is_none());
    assert!(Date::from_day_number(i32::MIN).is_none());
    assert!(Date::from_day_number(i32::MAX).is_none());
}

#[test]
fn from_ymd_gives_the_day_number() {
    assert_eq!(Date::from_ymd(1, 1, 1).unwrap().day_number(), 1);
    assert_eq!(Date::from_ymd(0, 12, 31).unwrap().day_number(), 0);
    assert_eq!(Date::from_ymd(1970, 1, 1).unwrap().day_number(), 719_163);
    assert_eq!(Date::from_ymd(2021, 3, 1).unwrap().day_number(), 737_850);
    assert_eq!(Date::from_ymd(-262_143, 1, 1).unwrap().day_number(), MIN_DAY_NUMBER);
    assert_eq!(Date::from_ymd(262_142, 12, 31).unwrap().day_number(), MAX_DAY_NUMBER);
}

#[test]
fn from_ymd_refuses_what_is_no_date() {
    assert!(Date::from_ymd(2021, 2, 29).is_none());
    assert!(Date::from_ymd(2021, 13, 1).is_none());
    assert!(Date::from_ymd(2021, 0, 1).is_none());
    assert!(Date::from_ymd(2021, 4, 31).is_none());
    assert!(Date::from_ymd(2021, 1, 0).is_none());
    assert!(Date::from_ymd(262_143, 1, 1).is_none());
    assert!(Date::from_ymd(-262_144, 12, 31).is_none());
    assert!(Date::from_ymd(2020, 2, 29).is_some());
}

#[test]
fn year_month_and_day_are_those_given() {
    let date = Date::from_ymd(2021, 3, 5).unwrap();
    assert_eq!((date.year(), date.month(), date.day()), (2021, 3, 5));
    let date = Date::from_ymd(-44, 3, 15).unwrap();
    assert_eq!((date.year(), date.month(), date.day()), (-44, 3, 15));
    let date = Date::from_day_number(MAX_DAY_NUMBER).unwrap();
    assert_eq!((date.year(), date.month(), date.day()), (262_142, 12, 31));
    let date = Date::from_day_number(MIN_DAY_NUMBER).unwrap();
    assert_eq!((date.year(), date.month(), date.day()), (-262_143, 1, 1));
}

#[test]
fn weekday_of_known_dates() {
    assert_eq!(Date::from_ymd(2021, 3, 1).unwrap().weekday(), Weekday::Mon);
    assert_eq!(Date::from_ymd(2021, 3, 2).unwrap().weekday(), Weekday::Tue);
    assert_eq!(Date::from_ymd(2021, 3, 3).unwrap().weekday(), Weekday::Wed);
    assert_eq!(Date::from_ymd(2021, 3, 4).unwrap().weekday(), Weekday::Thu);
    assert_eq!(Date::from_ymd(2021, 3, 5).unwrap().weekday(), Weekday::Fri);
    assert_eq!(Date::from_ymd(2021, 3, 6).unwrap().weekday(), Weekday::Sat);
    assert_eq!(Date::from_ymd(2021, 3, 7).unwrap().weekday(), Weekday::Sun);
    assert_eq!(Date::from_ymd(1, 1, 1).unwrap().weekday(), Weekday::Mon);
    assert_eq!(Date::from_ymd(1970, 1, 1).unwrap().weekday(), Weekday::Thu);
}

#[test]
fn weekday_follows_the_day_number_around_day_one() {
    for day in -800_000..800_000 {
        let date = Date::from_day_number(day).unwrap();
        let naive = NaiveDate::from_num_days_from_ce_opt(day).unwrap();
        assert_eq!(date.weekday(), weekday_of_chrono(naive.weekday()));
        assert_eq!(date.weekday(), weekday_by_count(day));
    }
}

#[test]
fn weekday_follows_the_day_number_at_both_ends() {
    for offset in 0..5_000 {
        for day in [MIN_DAY_NUMBER + offset, MAX_DAY_NUMBER - offset] {
            let date = Date::from_day_number(day).unwrap();
            assert_eq!(date.weekday(), weekday_by_count(day));
        }
    }
}

#[test]
fn weekday_follows_the_day_number_in_every_century() {
    let mut day = MIN_DAY_NUMBER;
    while day <= MAX_DAY_NUMBER {
        let date = Date::from_day_number(day).unwrap();
        assert_eq!(date.weekday(), weekday_by_count(day));
        day += 36_523;
    }
}

#[test]
fn business_days_are_monday_to_friday() {
    let expected = [true, true, true, true, true, false, false];
    for (offset, business) in expected.iter().enumerate() {
        let date = Date::from_ymd(2021, 3, 1 + offset as u32).unwrap();
        assert_eq!(date.is_business_day(), *business);
    }
}

#[test]
fn succ_is_the_next_day() {
    let date = Date::from_ymd(2021, 2, 28).unwrap();
    assert_eq!(date.succ(), Date::from_ymd(2021, 3, 1));
    let date = Date::from_ymd(2020, 2, 28).unwrap();
    assert_eq!(date.succ(), Date::from_ymd(2020, 2, 29));
    let date = Date::from_ymd(2021, 12, 31).unwrap();
    assert_eq!(date.succ(), Date::from_ymd(2022, 1, 1));
    assert_eq!(Date::from_day_number(MAX_DAY_NUMBER).unwrap().succ(), None);
}

#[test]
fn succ_up_to_stops_at_the_last_day() {
    let first = Date::from_ymd(2021, 3, 1).unwrap();
    let second = Date::from_ymd(2021, 3, 2).unwrap();
    assert_eq!(first.succ_up_to(&second), Some(second));
    assert_eq!(second.succ_up_to(&second), None);
    assert_eq!(second.succ_up_to(&first), None);
    let last = Date::from_day_number(MAX_DAY_NUMBER).unwrap();
    assert_eq!(last.succ_up_to(&last), None);
}

#[test]
fn is_on_or_before_compares_the_days() {
    let first = Date::from_ymd(2021, 3, 1).unwrap();
    let second = Date::from_ymd(2021, 3, 2).unwrap();
    assert!(first.is_on_or_before(&second));
    assert!(first.is_on_or_before(&first));
    assert!(!second.is_on_or_before(&first));
}

#[test]
fn iso_text_is_year_month_day() {
    assert_eq!(Date::from_ymd(2021, 3, 1).unwrap().iso_text(), "2021-03-01");
    assert_eq!(Date::from_ymd(1999, 12, 31).unwrap().iso_text(), "1999-12-31");
    assert_eq!(Date::from_ymd(33, 4, 3).unwrap().iso_text(), "0033-04-03");
    let date = Date::from_ymd(2021, 3, 1).unwrap();
    let naive = NaiveDate::from_ymd_opt(2021, 3, 1).unwrap();
    assert_eq!(date.iso_text(), naive.format("%F").to_string());
}
