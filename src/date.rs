use vstd::prelude::*;

use chrono::{Datelike, Days, NaiveDate};

verus! {

/// The first day that the calendar supports, 1 January of year -262143.
pub const MIN_DAY: i32 = -95746129;

/// The last day that the calendar supports, 31 December of year 262142.
pub const MAX_DAY: i32 = 95745399;

/// A calendar date without a time of day, as its day number in the proleptic
/// Gregorian calendar: 1 January of year 1 is day 1, the day before it day 0.
#[derive(Clone, Copy, Debug, PartialEq, Eq, Structural)]
pub struct Date {
    pub day: i32,
}

/// The date `n` days after `d`, where the calendar holds one.
pub open spec fn date_after(d: Date, n: nat) -> Option<Date> {
    if MIN_DAY <= d.day && d.day + n <= MAX_DAY {
        Some(Date { day: (d.day + n) as i32 })
    } else {
        None
    }
}

/// Relies on chrono's `NaiveDate::from_num_days_from_ce_opt`,
/// `NaiveDate::checked_add_days` and `Datelike::num_days_from_ce`: a date of
/// the supported range is rebuilt from its day number, moved `n` days on,
/// which fails exactly past the last supported day, and read back.
#[verifier::external_body]
fn checked_add_days(day: i32, n: u64) -> (r: Option<i32>)
    requires
        MIN_DAY <= day <= MAX_DAY,
    ensures
        r == (if day + n <= MAX_DAY { Some((day + n) as i32) } else { None::<i32> }),
{
    NaiveDate::from_num_days_from_ce_opt(day)
        .and_then(|d| d.checked_add_days(Days::new(n)))
        .map(|d| d.num_days_from_ce())
}

/// The text that `NaiveDate`'s `Display` gives for the supported day `day`:
/// `YYYY-MM-DD`, with a sign before years outside 0 to 9999.
pub uninterp spec fn date_text_of(day: i32) -> Seq<char>;

/// The day number of the date that `text` names when read with the chrono
/// format `format`, if it names one.
pub uninterp spec fn parsed_day(text: Seq<char>, format: Seq<char>) -> Option<i32>;

/// Relies on chrono's `NaiveDate::from_num_days_from_ce_opt`, which gives a
/// date exactly for the day numbers of the supported range, and on the
/// `Display` of `NaiveDate`, whose text depends on the date alone.
#[verifier::external_body]
pub(crate) fn format_day(day: i32) -> (r: Option<String>)
    ensures
        r is Some <==> MIN_DAY <= day <= MAX_DAY,
        r matches Some(t) ==> t@ == date_text_of(day),
{
    NaiveDate::from_num_days_from_ce_opt(day).map(|d| d.to_string())
}

/// Relies on chrono's `NaiveDate::parse_from_str`, whose result depends on the
/// text and the format alone, and on `Datelike::num_days_from_ce`.
#[verifier::external_body]
pub(crate) fn parse_day(text: &str, format: &str) -> (r: Option<i32>)
    ensures
        r == parsed_day(text@, format@),
{
    NaiveDate::parse_from_str(text, format).ok().map(|d| d.num_days_from_ce())
}

impl Date {
    /// The date `n` days after this one, or `None` past the calendar's range.
    pub fn add_days(self, n: u64) -> (r: Option<Date>)
        ensures
            r == date_after(self, n as nat),
    {
        if self.day < MIN_DAY || self.day > MAX_DAY {
            return None;
        }
        match checked_add_days(self.day, n) {
            Some(day) => Some(Date { day }),
            None => None,
        }
    }

    /// Whether this date is on or before `other`.
    pub fn is_on_or_before(self, other: Date) -> (r: bool)
        ensures
            r == (self.day <= other.day),
    {
        self.day <= other.day
    }
}

} // verus!
