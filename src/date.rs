use vstd::prelude::*;

use crate::chain_error::ChainError;
use chrono::{Datelike, NaiveDate};

verus! {

/// Day number of 0001-01-01, the first date a `Date` can hold.
pub const FIRST_DAY: i32 = 1;

/// Day number of 9999-12-31, the last date a `Date` can hold. Dates are
/// kept to four-digit years, so that their ISO-8601 text sorts as they do.
pub const LAST_DAY: i32 = 3652059;

/// The day number, counted from 0001-01-01 as day 1 in the proleptic
/// Gregorian calendar, of the date `year-month-day`; `None` where no such
/// date exists.
pub uninterp spec fn ymd_day_number(year: int, month: int, day: int) -> Option<int>;

/// The day of the month (1 to 31) of the date with day number `n`.
pub uninterp spec fn day_of_month(n: int) -> int;

/// The day number of the date that ISO-8601 text `s` (`YYYY-MM-DD`) names;
/// `None` where `s` names no date.
pub uninterp spec fn iso_day_number(s: Seq<char>) -> Option<int>;

/// The ISO-8601 text (`YYYY-MM-DD`) of the date with day number `n`.
pub uninterp spec fn iso_text(n: int) -> Seq<char>;

/// The weekday of the date with day number `n`: 0 for Sunday through 6 for
/// Saturday. Day 1, 0001-01-01, was a Monday.
pub open spec fn weekday_of(n: int) -> int {
    n % 7
}

/// Whether `n` is the day number of a date that a `Date` can hold.
pub open spec fn in_date_range(n: int) -> bool {
    FIRST_DAY <= n <= LAST_DAY
}

/// Relies on `NaiveDate::from_ymd_opt` and `Datelike::num_days_from_ce`:
/// the day number of a calendar date, if the date exists.
#[verifier::external_body]
fn day_number_of_ymd(year: i32, month: u32, day: u32) -> (r: Option<i32>)
    ensures
        r is Some <==> ymd_day_number(year as int, month as int, day as int) is Some,
        r is Some ==> ymd_day_number(year as int, month as int, day as int) == Some(
            r->0 as int,
        ),
{
    match NaiveDate::from_ymd_opt(year, month, day) {
        Some(d) => Some(d.num_days_from_ce()),
        None => None,
    }
}

/// Relies on `NaiveDate::from_num_days_from_ce_opt`, which accepts every day
/// number of years 1 to 9999, and `Datelike::day`, which returns 1 to 31.
#[verifier::external_body]
fn day_of_month_for(n: i32) -> (r: u32)
    requires
        in_date_range(n as int),
    ensures
        r as int == day_of_month(n as int),
        1 <= r <= 31,
{
    NaiveDate::from_num_days_from_ce_opt(n).unwrap().day()
}

/// Relies on `NaiveDate`'s `FromStr`, which reads `%Y-%m-%d`, and
/// `Datelike::num_days_from_ce`: the day number of the date the text names.
#[verifier::external_body]
fn day_number_of_iso(s: &str) -> (r: Option<i32>)
    ensures
        r is Some <==> iso_day_number(s@) is Some,
        r is Some ==> iso_day_number(s@) == Some(r->0 as int),
{
    match s.parse::<NaiveDate>() {
        Ok(d) => Some(d.num_days_from_ce()),
        Err(_) => None,
    }
}

/// Relies on `NaiveDate::from_num_days_from_ce_opt`, which accepts every day
/// number of years 1 to 9999, and `NaiveDate`'s `Display`, which writes
/// `%Y-%m-%d`.
#[verifier::external_body]
fn iso_of_day_number(n: i32) -> (r: String)
    requires
        in_date_range(n as int),
    ensures
        r@ == iso_text(n as int),
{
    NaiveDate::from_num_days_from_ce_opt(n).unwrap().to_string()
}

/// A calendar date between 0001-01-01 and 9999-12-31, held as its day
/// number (0001-01-01 is day 1).
#[derive(Clone, Copy, Debug, PartialEq, Eq, Structural)]
pub struct Date {
    days: i32,
}

impl View for Date {
    type V = int;

    closed spec fn view(&self) -> int {
        self.days as int
    }
}

impl Date {
    #[verifier::type_invariant]
    spec fn in_range(self) -> bool {
        in_date_range(self.days as int)
    }

    /// The date with the given day number, if a `Date` can hold it.
    pub fn from_day_number(n: i32) -> (r: Option<Date>)
        ensures
            r is Some <==> in_date_range(n as int),
            r is Some ==> r->0@ == n,
    {
        if FIRST_DAY <= n && n <= LAST_DAY {
            Some(Date { days: n })
        } else {
            None
        }
    }

    /// The date `year-month-day`, if it exists and a `Date` can hold it.
    pub fn from_ymd(year: i32, month: u32, day: u32) -> (r: Option<Date>)
        ensures
            r is Some <==> (ymd_day_number(year as int, month as int, day as int) is Some
                && in_date_range(ymd_day_number(year as int, month as int, day as int)->0)),
            r is Some ==> ymd_day_number(year as int, month as int, day as int) == Some(r->0@),
    {
        match day_number_of_ymd(year, month, day) {
            Some(n) => Date::from_day_number(n),
            None => None,
        }
    }

    /// The date named by ISO-8601 text `YYYY-MM-DD`.
    pub fn parse(s: &str) -> (r: Result<Date, ChainError>)
        ensures
            r is Ok <==> (iso_day_number(s@) is Some && in_date_range(iso_day_number(s@)->0)),
            r is Ok ==> iso_day_number(s@) == Some(r->Ok_0@),
            r is Err ==> r->Err_0@ == "invalid date: expected YYYY-MM-DD"@,
    {
        let parsed = match day_number_of_iso(s) {
            Some(n) => Date::from_day_number(n),
            None => None,
        };
        match parsed {
            Some(d) => Ok(d),
            None => Err(ChainError::new("invalid date: expected YYYY-MM-DD")),
        }
    }

    /// The day number of this date.
    pub fn day_number(&self) -> (r: i32)
        ensures
            r == self@,
            in_date_range(r as int),
    {
        proof {
            use_type_invariant(self);
        }
        self.days
    }

    /// The next day, if a `Date` can hold it.
    pub fn next(&self) -> (r: Option<Date>)
        ensures
            r is Some <==> self@ < LAST_DAY,
            r is Some ==> r->0@ == self@ + 1,
    {
        proof {
            use_type_invariant(self);
        }
        if self.days < LAST_DAY {
            Some(Date { days: self.days + 1 })
        } else {
            None
        }
    }

    /// The weekday of this date: 0 for Sunday through 6 for Saturday.
    pub fn weekday(&self) -> (r: u8)
        ensures
            r as int == weekday_of(self@),
            r < 7,
    {
        proof {
            use_type_invariant(self);
        }
        ((self.days as u32) % 7) as u8
    }

    /// The day of the month, 1 to 31.
    pub fn day(&self) -> (r: u32)
        ensures
            r as int == day_of_month(self@),
            1 <= r <= 31,
    {
        proof {
            use_type_invariant(self);
        }
        day_of_month_for(self.days)
    }

    /// The ISO-8601 text of this date, `YYYY-MM-DD`.
    pub fn to_iso_string(&self) -> (r: String)
        ensures
            r@ == iso_text(self@),
    {
        proof {
            use_type_invariant(self);
        }
        iso_of_day_number(self.days)
    }
}

} // verus!
