//! Calendar dates without a time zone.

use chrono::Datelike;
use vstd::prelude::*;

verus! {

/// The first year that a date can be of.
pub const MIN_YEAR: i32 = -262143;

/// The last year that a date can be of.
pub const MAX_YEAR: i32 = 262142;

/// Whether `year` has a 29th of February.
pub open spec fn is_leap_year(year: int) -> bool {
    year % 4 == 0 && (year % 100 != 0 || year % 400 == 0)
}

/// The number of days of the month `month` of `year`.
pub open spec fn days_in_month(year: int, month: int) -> int {
    if month == 2 {
        if is_leap_year(year) {
            29
        } else {
            28
        }
    } else if month == 4 || month == 6 || month == 9 || month == 11 {
        30
    } else {
        31
    }
}

/// Whether (year, month, day) is a day of the proleptic Gregorian calendar
/// within the years that a date can hold.
pub open spec fn valid_ymd(year: int, month: int, day: int) -> bool {
    &&& MIN_YEAR <= year <= MAX_YEAR
    &&& 1 <= month <= 12
    &&& 1 <= day <= days_in_month(year, month)
}

/// Whether the first day comes strictly before the second.
pub open spec fn ymd_before(a: (int, int, int), b: (int, int, int)) -> bool {
    a.0 < b.0 || (a.0 == b.0 && (a.1 < b.1 || (a.1 == b.1 && a.2 < b.2)))
}

/// A calendar day. Every value is a day that exists.
#[derive(Debug, Clone, Copy, PartialEq, Eq, Structural, Hash)]
pub struct Date {
    year: i32,
    month: u32,
    day: u32,
}

impl View for Date {
    type V = (int, int, int);

    /// The day as (year, month, day).
    closed spec fn view(&self) -> (int, int, int) {
        (self.year as int, self.month as int, self.day as int)
    }
}

/// The day that lies `days` days before (year, month, day), as
/// `chrono::NaiveDate::checked_sub_days` computes it; `None` where the
/// given day does not exist or the earlier one is out of range.
pub uninterp spec fn days_before(year: int, month: int, day: int, days: int) -> Option<
    (int, int, int),
>;

/// The text that `chrono::NaiveDate` displays for (year, month, day); empty
/// where that day does not exist.
pub uninterp spec fn iso_text(year: int, month: int, day: int) -> Seq<char>;

/// The text that `chrono::NaiveDate` writes for (year, month, day) in the
/// format "%b %d, %Y": the short name of the month, the day, and the year;
/// empty where that day does not exist.
pub uninterp spec fn long_text(year: int, month: int, day: int) -> Seq<char>;

fn leap_year(year: i32) -> (leap: bool)
    ensures
        leap == is_leap_year(year as int),
{
    year % 4 == 0 && (year % 100 != 0 || year % 400 == 0)
}

fn month_length(year: i32, month: u32) -> (length: u32)
    ensures
        length == days_in_month(year as int, month as int),
{
    if month == 2 {
        if leap_year(year) {
            29
        } else {
            28
        }
    } else if month == 4 || month == 6 || month == 9 || month == 11 {
        30
    } else {
        31
    }
}

impl Date {
    #[verifier::type_invariant]
    closed spec fn exists_in_calendar(self) -> bool {
        valid_ymd(self.year as int, self.month as int, self.day as int)
    }

    /// The day (year, month, day), or `None` if there is no such day.
    pub fn from_ymd_opt(year: i32, month: u32, day: u32) -> (date: Option<Date>)
        ensures
            valid_ymd(year as int, month as int, day as int) ==> date.is_some() && date.unwrap()@
                == (year as int, month as int, day as int),
            !valid_ymd(year as int, month as int, day as int) ==> date.is_none(),
    {
        if year < MIN_YEAR || year > MAX_YEAR || month < 1 || month > 12 || day < 1 {
            return None;
        }
        if day > month_length(year, month) {
            return None;
        }
        Some(Date { year, month, day })
    }

    pub fn year(&self) -> (year: i32)
        ensures
            year == self@.0,
    {
        self.year
    }

    pub fn month(&self) -> (month: u32)
        ensures
            month == self@.1,
    {
        self.month
    }

    pub fn day(&self) -> (day: u32)
        ensures
            day == self@.2,
    {
        self.day
    }

    /// The day as (year, month, day), which is a day that exists.
    pub fn ymd(&self) -> (ymd: (i32, u32, u32))
        ensures
            (ymd.0 as int, ymd.1 as int, ymd.2 as int) == self@,
            valid_ymd(self@.0, self@.1, self@.2),
    {
        proof {
            use_type_invariant(self);
        }
        (self.year, self.month, self.day)
    }

    /// Two dates of the same day are the same date.
    pub proof fn lemma_view_injective(self, other: Date)
        requires
            self@ == other@,
        ensures
            self == other,
    {
    }

    /// Whether this day comes strictly after `other`.
    pub fn is_after(&self, other: &Date) -> (after: bool)
        ensures
            after == ymd_before(other@, self@),
    {
        self.year > other.year || (self.year == other.year && (self.month > other.month || (
        self.month == other.month && self.day > other.day)))
    }

    /// Whether both are the same day.
    pub fn same_day(&self, other: &Date) -> (same: bool)
        ensures
            same == (self@ == other@),
            same == (*self == *other),
    {
        self.year == other.year && self.month == other.month && self.day == other.day
    }

    /// The day `days` days earlier, by `chrono::NaiveDate::checked_sub_days`:
    /// the result is the one that chrono computes for this day and count, and
    /// `None` where chrono finds the earlier day out of its range. What chrono
    /// gives back is a day that exists, within the same years as here.
    #[verifier::external_body]
    pub(crate) fn checked_sub_days(&self, days: u64) -> (earlier: Option<Date>)
        ensures
            earlier.is_some() ==> days_before(self@.0, self@.1, self@.2, days as int) == Some(
                earlier.unwrap()@,
            ),
            earlier.is_none() ==> days_before(self@.0, self@.1, self@.2, days as int).is_none(),
    {
        let date = chrono::NaiveDate::from_ymd_opt(self.year, self.month, self.day)?;
        let earlier = date.checked_sub_days(chrono::Days::new(days))?;
        Some(Date { year: earlier.year(), month: earlier.month(), day: earlier.day() })
    }

    /// The day as text with the month's name, by `chrono::NaiveDate::format`
    /// with "%b %d, %Y": the result is the text that chrono writes for this
    /// day in that format.
    #[verifier::external_body]
    pub(crate) fn to_long_string(&self) -> (text: String)
        ensures
            text@ == long_text(self@.0, self@.1, self@.2),
    {
        match chrono::NaiveDate::from_ymd_opt(self.year, self.month, self.day) {
            Some(date) => date.format("%b %d, %Y").to_string(),
            None => String::new(),
        }
    }

    /// The day as text, by the `Display` of `chrono::NaiveDate`: the result
    /// is the text that chrono writes for this day.
    #[verifier::external_body]
    pub(crate) fn to_iso_string(&self) -> (text: String)
        ensures
            text@ == iso_text(self@.0, self@.1, self@.2),
    {
        match chrono::NaiveDate::from_ymd_opt(self.year, self.month, self.day) {
            Some(date) => date.to_string(),
            None => String::new(),
        }
    }
}

/// Today's date on the wall clock of the US Eastern time zone, read with
/// `chrono::Utc::now` and converted with `chrono_tz::US::Eastern`. Nothing is
/// claimed of which day comes back, but that it is a day that exists. The
/// system clock must not stand before 1970.
#[verifier::external_body]
pub fn now_date_naive_eastern() -> (today: Date) {
    let today = chrono::Utc::now().with_timezone(&chrono_tz::US::Eastern).date_naive();
    Date { year: today.year(), month: today.month(), day: today.day() }
}

/// A date that may be missing, with today as its default.
pub trait DefaultDate {
    spec fn given(&self) -> Option<Date>;

    /// The date that was given, or else today's date in US Eastern time.
    fn or_naive_date_now(&self) -> (date: Date)
        ensures
            self.given().is_some() ==> date == self.given().unwrap(),
    ;
}

impl DefaultDate for Option<Date> {
    open spec fn given(&self) -> Option<Date> {
        *self
    }

    fn or_naive_date_now(&self) -> (date: Date) {
        match self {
            Some(e) => *e,
            None => now_date_naive_eastern(),
        }
    }
}

/// The date that was given, or else `today`.
pub fn or_date(given: Option<Date>, today: Date) -> (date: Date)
    ensures
        date == match given {
            Some(d) => d,
            None => today,
        },
{
    match given {
        Some(d) => d,
        None => today,
    }
}

} // verus!
