//! Calendar dates as the ledger stores them (`2024-03-09`) and as the
//! listings show them (`09 Mar 2024`). The calendar itself is chrono's.

use vstd::prelude::*;
use chrono::Datelike;
use chrono::NaiveDate;

verus! {

/// chrono's report on a text that is no date. It is carried through and
/// never looked into.
#[verifier::external_type_specification]
#[verifier::external_body]
pub struct ExParseError(chrono::ParseError);

/// A day of the proleptic Gregorian calendar.
#[derive(Debug, Clone, Copy, PartialEq, Eq, Structural)]
pub struct CalendarDate {
    pub year: i32,
    /// 1 for January up to 12 for December.
    pub month: u32,
    /// Day of the month, starting at 1.
    pub day: u32,
}

impl CalendarDate {
    /// The year, month and day as mathematical integers.
    pub open spec fn fields(self) -> (int, int, int) {
        (self.year as int, self.month as int, self.day as int)
    }
}

/// The year, month and day that `NaiveDate::parse_from_str` reads from a
/// text under the pattern `%Y-%m-%d`, or `None` where it reports an error.
pub uninterp spec fn stored_date(s: Seq<char>) -> Option<(int, int, int)>;

/// The text that chrono writes for the day with the given year, month and
/// day under the pattern `%d %b %Y`, or `None` where
/// `NaiveDate::from_ymd_opt` finds no such day.
pub uninterp spec fn shown_date(year: int, month: int, day: int) -> Option<Seq<char>>;

/// Calls `NaiveDate::parse_from_str` with the pattern `%Y-%m-%d` and copies
/// year, month and day out of the date it returns. Not proved here, and
/// taken from chrono: the outcome depends on the text alone; a date that was
/// read is a day of chrono's calendar, so that `NaiveDate::from_ymd_opt`
/// finds it again; its month lies within 1 to 12 and its day within 1 to 31,
/// as chrono documents for `Datelike::month` and `Datelike::day`.
#[verifier::external_body]
fn read_stored_date(s: &str) -> (r: Result<CalendarDate, chrono::ParseError>)
    ensures
        r is Ok <==> stored_date(s@) is Some,
        r is Ok ==> {
            let d = r->Ok_0;
            &&& stored_date(s@) == Some(d.fields())
            &&& shown_date(d.year as int, d.month as int, d.day as int) is Some
            &&& 1 <= d.month <= 12
            &&& 1 <= d.day <= 31
        },
{
    match NaiveDate::parse_from_str(s, "%Y-%m-%d") {
        Ok(d) => Ok(CalendarDate { year: d.year(), month: d.month(), day: d.day() }),
        Err(e) => Err(e),
    }
}

/// Calls `NaiveDate::from_ymd_opt` and, where that finds the day, writes it
/// with `NaiveDate::format` under the pattern `%d %b %Y`.
#[verifier::external_body]
fn write_shown_date(d: CalendarDate) -> (r: Option<String>)
    ensures
        r is Some <==> shown_date(d.year as int, d.month as int, d.day as int) is Some,
        r is Some ==> Some(r->Some_0@) == shown_date(d.year as int, d.month as int, d.day as int),
{
    match NaiveDate::from_ymd_opt(d.year, d.month, d.day) {
        Some(date) => Some(date.format("%d %b %Y").to_string()),
        None => None,
    }
}

/// Reads a date in the stored form, `year-month-day`.
pub fn parse_date_from_db(date_str: &str) -> (r: Result<CalendarDate, chrono::ParseError>)
    ensures
        r is Ok <==> stored_date(date_str@) is Some,
        r is Ok ==> stored_date(date_str@) == Some(r->Ok_0.fields()),
        r is Ok ==> 1 <= r->Ok_0.month <= 12 && 1 <= r->Ok_0.day <= 31,
{
    read_stored_date(date_str)
}

/// The text of a day as the listings show it, where the day exists.
pub fn show_date(d: CalendarDate) -> (r: Option<String>)
    ensures
        r is Some <==> shown_date(d.year as int, d.month as int, d.day as int) is Some,
        r is Some ==> Some(r->Some_0@) == shown_date(d.year as int, d.month as int, d.day as int),
{
    write_shown_date(d)
}

/// The displayed form of a stored date: `None` for a text that is no stored
/// date, else the day, the month's short name and the year.
pub open spec fn reformatted(s: Seq<char>) -> Option<Seq<char>> {
    match stored_date(s) {
        Some((y, m, d)) => shown_date(y, m, d),
        None => None,
    }
}

/// Turns a stored date into its displayed form; a text that is no stored
/// date gives the error that reading it met.
pub fn format_date(date_str: &str) -> (r: Result<String, chrono::ParseError>)
    ensures
        r is Ok <==> stored_date(date_str@) is Some,
        r is Ok ==> Some(r->Ok_0@) == reformatted(date_str@),
{
    match read_stored_date(date_str) {
        Ok(d) => Ok(write_shown_date(d).unwrap()),
        Err(e) => Err(e),
    }
}

/// The date cell of a listing: the displayed form where the stored text is a
/// date, else the stored text as it is.
pub open spec fn date_cell(s: Seq<char>) -> Seq<char> {
    match reformatted(s) {
        Some(t) => t,
        None => s,
    }
}

/// Chooses the text of a date cell from the outcome of formatting the stored
/// text: the formatted date, or the stored text where formatting failed.
pub fn date_or_raw(formatted: Result<String, chrono::ParseError>, raw: &str) -> (r: String)
    ensures
        r@ == (match formatted {
            Ok(t) => t@,
            Err(_) => raw@,
        }),
{
    match formatted {
        Ok(t) => t,
        Err(_) => String::from_str(raw),
    }
}

} // verus!
