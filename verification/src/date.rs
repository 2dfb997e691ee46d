//! Calendar dates as day numbers of the proleptic Gregorian calendar.

use chrono::Datelike;
use chrono::NaiveDate;
use vstd::prelude::*;

verus! {

/// Day number of the first date that can be represented (1 January of the
/// year -262143).
pub const MIN_DAY_NUMBER: i32 = -95_746_129;

/// Day number of the last date that can be represented (31 December of the
/// year 262142).
pub const MAX_DAY_NUMBER: i32 = 95_745_399;

/// A day of the week.
#[derive(Clone, Copy, Debug, PartialEq, Eq, Structural)]
pub enum Weekday {
    Mon,
    Tue,
    Wed,
    Thu,
    Fri,
    Sat,
    Sun,
}

/// The day of the week on which the day with the given number falls. Day 1
/// is 1 January of the year 1, a Monday.
pub open spec fn weekday_at(day: int) -> Weekday {
    let since_monday = (day - 1) % 7;
    if since_monday == 0 {
        Weekday::Mon
    } else if since_monday == 1 {
        Weekday::Tue
    } else if since_monday == 2 {
        Weekday::Wed
    } else if since_monday == 3 {
        Weekday::Thu
    } else if since_monday == 4 {
        Weekday::Fri
    } else if since_monday == 5 {
        Weekday::Sat
    } else {
        Weekday::Sun
    }
}

/// A business day is any day but Saturday and Sunday.
pub open spec fn is_business_day(day: int) -> bool {
    weekday_at(day) != Weekday::Sat && weekday_at(day) != Weekday::Sun
}

/// Whether a day number names a date that can be represented.
pub open spec fn is_day_number(day: int) -> bool {
    MIN_DAY_NUMBER <= day <= MAX_DAY_NUMBER
}

/// The day number of the date with the given year, month and day of the
/// month, or `None` where the calendar has no such date or it lies outside
/// the years that can be represented.
pub uninterp spec fn civil_day_number(year: int, month: int, day: int) -> Option<int>;

/// Year, month and day of the month of the date with the given day number.
pub uninterp spec fn civil_of_day_number(day: int) -> (int, int, int);

/// The date with the given day number, written as year, month and day
/// with hyphens between them.
pub uninterp spec fn iso_date_text(day: int) -> Seq<char>;

/// Calls `NaiveDate::from_num_days_from_ce_opt`, which gives a date for
/// every day number that `requires` lets in, and `Datelike::weekday` on
/// that date. Claims that the days of the week follow each other in their
/// order from one day number to the next, and that day 1 is a Monday.
#[verifier::external_body]
fn weekday_of_day_number(day: i32) -> (weekday: Weekday)
    requires
        is_day_number(day as int),
    ensures
        weekday == weekday_at(day as int),
{
    match NaiveDate::from_num_days_from_ce_opt(day).unwrap().weekday() {
        chrono::Weekday::Mon => Weekday::Mon,
        chrono::Weekday::Tue => Weekday::Tue,
        chrono::Weekday::Wed => Weekday::Wed,
        chrono::Weekday::Thu => Weekday::Thu,
        chrono::Weekday::Fri => Weekday::Fri,
        chrono::Weekday::Sat => Weekday::Sat,
        chrono::Weekday::Sun => Weekday::Sun,
    }
}

/// Calls `NaiveDate::from_ymd_opt` and, where that gives a date,
/// `Datelike::num_days_from_ce` on it. Claims only that the answer depends
/// on the three numbers alone.
#[verifier::external_body]
fn day_number_of_civil(year: i32, month: u32, day: u32) -> (number: Option<i32>)
    ensures
        match number {
            Some(n) => civil_day_number(year as int, month as int, day as int) == Some(n as int),
            None => civil_day_number(year as int, month as int, day as int).is_none(),
        },
{
    match NaiveDate::from_ymd_opt(year, month, day) {
        Some(date) => Some(date.num_days_from_ce()),
        None => None,
    }
}

/// Calls `NaiveDate::from_num_days_from_ce_opt`, which gives a date for
/// every day number that `requires` lets in, then `Datelike::year`,
/// `month` and `day` on that date. Claims only that the answer depends on
/// the day number alone.
#[verifier::external_body]
fn civil_of(day: i32) -> (civil: (i32, u32, u32))
    requires
        is_day_number(day as int),
    ensures
        (civil.0 as int, civil.1 as int, civil.2 as int) == civil_of_day_number(day as int),
{
    let date = NaiveDate::from_num_days_from_ce_opt(day).unwrap();
    (date.year(), date.month(), date.day())
}

/// Calls `NaiveDate::from_num_days_from_ce_opt`, which gives a date for
/// every day number that `requires` lets in, and `NaiveDate::format` with
/// the pattern `%F` on that date. Claims only that the text depends on the
/// day number alone.
#[verifier::external_body]
fn iso_text_of(day: i32) -> (text: String)
    requires
        is_day_number(day as int),
    ensures
        text@ == iso_date_text(day as int),
{
    NaiveDate::from_num_days_from_ce_opt(day).unwrap().format("%F").to_string()
}

/// A calendar date between the first and the last that can be represented.
#[derive(Clone, Copy, Debug, PartialEq, Eq)]
pub struct Date {
    day_number: i32,
}

impl View for Date {
    type V = int;

    /// The date's day number.
    closed spec fn view(&self) -> int {
        self.day_number as int
    }
}

impl Date {
    #[verifier::type_invariant]
    spec fn in_range(self) -> bool {
        is_day_number(self.day_number as int)
    }

    /// The date with the given day number, if there is one.
    pub fn from_day_number(day: i32) -> (date: Option<Date>)
        ensures
            date.is_some() <==> is_day_number(day as int),
            date matches Some(d) ==> d@ == day,
    {
        if MIN_DAY_NUMBER <= day && day <= MAX_DAY_NUMBER {
            Some(Date { day_number: day })
        } else {
            None
        }
    }

    /// The date with the given year, month and day of the month, if there
    /// is one.
    pub fn from_ymd(year: i32, month: u32, day: u32) -> (date: Option<Date>)
        ensures
            match civil_day_number(year as int, month as int, day as int) {
                Some(n) => if is_day_number(n) {
                    date matches Some(d) && d@ == n
                } else {
                    date.is_none()
                },
                None => date.is_none(),
            },
    {
        match day_number_of_civil(year, month, day) {
            Some(number) => Date::from_day_number(number),
            None => None,
        }
    }

    /// The date's day number.
    pub fn day_number(&self) -> (day: i32)
        ensures
            day == self@,
            is_day_number(day as int),
    {
        proof {
            use_type_invariant(self);
        }
        self.day_number
    }

    /// The year of the date.
    pub fn year(&self) -> (year: i32)
        ensures
            year == civil_of_day_number(self@).0,
    {
        proof {
            use_type_invariant(self);
        }
        civil_of(self.day_number).0
    }

    /// The month of the date, 1 for January.
    pub fn month(&self) -> (month: u32)
        ensures
            month == civil_of_day_number(self@).1,
    {
        proof {
            use_type_invariant(self);
        }
        civil_of(self.day_number).1
    }

    /// The day of the month of the date, from 1.
    pub fn day(&self) -> (day: u32)
        ensures
            day == civil_of_day_number(self@).2,
    {
        proof {
            use_type_invariant(self);
        }
        civil_of(self.day_number).2
    }

    /// The day of the week on which the date falls.
    pub fn weekday(&self) -> (weekday: Weekday)
        ensures
            weekday == weekday_at(self@),
    {
        proof {
            use_type_invariant(self);
        }
        weekday_of_day_number(self.day_number)
    }

    /// Whether the date is neither a Saturday nor a Sunday.
    pub fn is_business_day(&self) -> (business: bool)
        ensures
            business == is_business_day(self@),
    {
        match self.weekday() {
            Weekday::Sat | Weekday::Sun => false,
            _ => true,
        }
    }

    /// The next date, or `None` after the last date that can be
    /// represented.
    pub fn succ(&self) -> (next: Option<Date>)
        ensures
            next.is_some() <==> self@ < MAX_DAY_NUMBER,
            next matches Some(d) ==> d@ == self@ + 1,
    {
        proof {
            use_type_invariant(self);
        }
        if self.day_number < MAX_DAY_NUMBER {
            Some(Date { day_number: self.day_number + 1 })
        } else {
            None
        }
    }

    /// The next date where it is not after `last`, else `None`.
    pub fn succ_up_to(&self, last: &Date) -> (next: Option<Date>)
        ensures
            next.is_some() <==> self@ < last@,
            next matches Some(d) ==> d@ == self@ + 1,
    {
        proof {
            use_type_invariant(self);
            use_type_invariant(last);
        }
        if self.day_number < last.day_number {
            Some(Date { day_number: self.day_number + 1 })
        } else {
            None
        }
    }

    /// Whether the date is the other date or lies before it.
    pub fn is_on_or_before(&self, other: &Date) -> (answer: bool)
        ensures
            answer == (self@ <= other@),
    {
        self.day_number <= other.day_number
    }

    /// The date as text: year, month and day with hyphens between them.
    pub fn iso_text(&self) -> (text: String)
        ensures
            text@ == iso_date_text(self@),
    {
        proof {
            use_type_invariant(self);
        }
        iso_text_of(self.day_number)
    }
}

} // verus!
