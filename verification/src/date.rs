//! Calendar dates and the clock.

use vstd::prelude::*;

verus! {

/// A calendar date, ordered by year, then month, then day.
#[derive(Clone, Copy, Debug, PartialEq, Eq, Structural)]
pub struct Date {
    pub year: i32,
    pub month: u32,
    pub day: u32,
}

impl Date {
    /// Whether `self` lies strictly before `other`.
    pub open spec fn is_before(self, other: Date) -> bool {
        ||| self.year < other.year
        ||| self.year == other.year && self.month < other.month
        ||| self.year == other.year && self.month == other.month && self.day < other.day
    }

    /// Whether `self` lies strictly before `other`.
    pub fn before(&self, other: &Date) -> (r: bool)
        ensures
            r == self.is_before(*other),
    {
        self.year < other.year || (self.year == other.year && (self.month < other.month || (
        self.month == other.month && self.day < other.day)))
    }
}

/// `chrono::ParseError`, the reason for which a text is no date. Nothing
/// is known of a value of it.
#[verifier::external_type_specification]
#[verifier::external_body]
pub struct ExParseError(chrono::ParseError);

/// What `chrono::NaiveDate::parse_from_str` makes of `text` under the format
/// `%Y-%m-%d`: the year, month and day of the date it yields, or `None`
/// where it rejects the text.
pub uninterp spec fn parsed_date(text: Seq<char>) -> Option<(int, int, int)>;

/// Parses `text` with `chrono::NaiveDate::parse_from_str` under the format
/// `%Y-%m-%d`. The parse depends on the text alone; the date comes back as
/// its year, month and day.
#[verifier::external_body]
pub(crate) fn parse_date(text: &str) -> (r: Result<Date, chrono::ParseError>)
    ensures
        r is Ok <==> parsed_date(text@) is Some,
        r matches Ok(d) ==> parsed_date(text@) == Some((d.year as int, d.month as int, d.day as int)),
{
    let date = chrono::NaiveDate::parse_from_str(text, "%Y-%m-%d")?;
    Ok(Date {
        year: chrono::Datelike::year(&date),
        month: chrono::Datelike::month(&date),
        day: chrono::Datelike::day(&date),
    })
}

/// The local calendar date at the moment of the call, read with
/// `chrono::Local::now`. Nothing is known of it beforehand.
#[verifier::external_body]
pub(crate) fn today() -> (r: Date) {
    let date = chrono::Local::now().date_naive();
    Date {
        year: chrono::Datelike::year(&date),
        month: chrono::Datelike::month(&date),
        day: chrono::Datelike::day(&date),
    }
}

/// The local time at the moment of the call in RFC 3339 notation, read with
/// `chrono::Local::now`. Nothing is known of it beforehand.
#[verifier::external_body]
pub(crate) fn timestamp() -> (r: String) {
    chrono::Local::now().to_rfc3339()
}

/// The local time at the moment of the call as `YYYYMMDD_HHMMSS`, read with
/// `chrono::Local::now`. Nothing is known of it beforehand.
#[verifier::external_body]
pub(crate) fn compact_timestamp() -> (r: String) {
    chrono::Local::now().format("%Y%m%d_%H%M%S").to_string()
}

} // verus!
