//! Calendar dates through `chrono`.
use vstd::prelude::*;
use chrono::Datelike;
use std::fmt::Write;

verus! {

/// The (year, month, day) that `chrono::NaiveDate::parse_from_str(text, fmt)`
/// yields, or `None` where it reports an error.
pub uninterp spec fn date_parse(text: Seq<char>, fmt: Seq<char>) -> Option<(i32, u32, u32)>;

/// The text that `chrono` renders for the date (year, month, day) with the
/// strftime-style format `fmt`, or `None` where the date does not exist or the
/// format cannot be rendered.
pub uninterp spec fn date_format(year: i32, month: u32, day: u32, fmt: Seq<char>) -> Option<
    Seq<char>,
>;

/// Calls `chrono::NaiveDate::parse_from_str` and reads the parsed date back as
/// plain numbers. Claimed: the outcome is a function of the text and the format.
#[verifier::external_body]
pub fn parse_date(text: &str, fmt: &str) -> (r: Option<(i32, u32, u32)>)
    ensures
        r == date_parse(text@, fmt@),
{
    chrono::NaiveDate::parse_from_str(text, fmt).ok().map(|d| (d.year(), d.month(), d.day()))
}

/// Calls `chrono::NaiveDate::from_ymd_opt` and renders the date with
/// `NaiveDate::format`. Claimed: the outcome is a function of the date and the
/// format; a rendering error gives `None` rather than a panic.
#[verifier::external_body]
pub fn format_date(year: i32, month: u32, day: u32, fmt: &str) -> (r: Option<String>)
    ensures
        r matches Some(s) ==> date_format(year, month, day, fmt@) == Some(s@),
        r is None ==> date_format(year, month, day, fmt@) is None,
{
    let date = chrono::NaiveDate::from_ymd_opt(year, month, day)?;
    let mut out = String::new();
    match write!(out, "{}", date.format(fmt)) {
        Ok(()) => Some(out),
        Err(_) => None,
    }
}

} // verus!
