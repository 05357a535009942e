//! Calendar dates as plain values: year, month and day, with the
//! month-level ordering the summarizer groups by.

use vstd::prelude::*;

use crate::errors::LedgerError;

verus! {

/// A calendar date. Entries are grouped by the (year, month) pair; the
/// day only distinguishes entries inside one month.
#[derive(Clone, Copy, Debug, PartialEq, Eq, Structural)]
pub struct Date {
    pub year: i32,
    pub month: u8,
    pub day: u8,
}

/// Strict month-level order: earlier year, or same year and earlier month.
pub open spec fn month_lt(a: Date, b: Date) -> bool {
    a.year < b.year || (a.year == b.year && a.month < b.month)
}

impl Date {
    pub fn new(year: i32, month: u8, day: u8) -> (d: Date)
        ensures
            d == (Date { year, month, day }),
    {
        Date { year, month, day }
    }

    /// The date normalized to the first day of its (year, month), the
    /// grouping key of the summarizer.
    pub open spec fn spec_first_day(self) -> Date {
        Date { year: self.year, month: self.month, day: 1 }
    }

    pub fn first_day(&self) -> (d: Date)
        ensures
            d == self.spec_first_day(),
    {
        Date { year: self.year, month: self.month, day: 1 }
    }

    /// Whether `self` strictly precedes `other` at month granularity.
    pub fn precedes_month(&self, other: &Date) -> (r: bool)
        ensures
            r == month_lt(*self, *other),
    {
        self.year < other.year || (self.year == other.year && self.month < other.month)
    }
}

/// What parsing a string as a `%Y-%m-%d` calendar date yields: a
/// function of the characters alone, `None` where they do not form a
/// valid date in that form.
pub uninterp spec fn date_from_str(s: Seq<char>) -> Option<Date>;

/// Relies on chrono's `FromStr` for `NaiveDate`, which parses exactly
/// the `%Y-%m-%d` form and only into valid calendar dates, and on its
/// `Datelike::year`/`month`/`day` accessors, whose results lie in the
/// calendar ranges (month 1..=12, day 1..=31).
#[verifier::external_body]
fn parse_date_chrono(s: &str) -> (r: Option<Date>)
    ensures
        r == date_from_str(s@),
        r matches Some(d) ==> 1 <= d.month <= 12 && 1 <= d.day <= 31,
{
    match s.parse::<chrono::NaiveDate>() {
        Ok(nd) => Some(
            Date {
                year: chrono::Datelike::year(&nd),
                month: chrono::Datelike::month(&nd) as u8,
                day: chrono::Datelike::day(&nd) as u8,
            },
        ),
        Err(_) => None,
    }
}

/// Parses user-supplied text as a calendar date written `yyyy-mm-dd`;
/// text in any other shape fails with `InputFormatError`.
pub fn parse_date(s: &str) -> (r: Result<Date, LedgerError>)
    ensures
        r is Ok <==> date_from_str(s@) is Some,
        date_from_str(s@) matches Some(d) ==> r == Ok::<Date, LedgerError>(d),
        r is Err ==> r == Err::<Date, LedgerError>(LedgerError::InputFormatError),
        r matches Ok(d) ==> 1 <= d.month <= 12 && 1 <= d.day <= 31,
{
    match parse_date_chrono(s) {
        Some(d) => Ok(d),
        None => Err(LedgerError::InputFormatError),
    }
}

} // verus!
