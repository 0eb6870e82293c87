use std::fmt::Write;

use vstd::prelude::*;

verus! {

#[verifier::external_type_specification]
#[verifier::external_body]
pub struct ExNaiveDateTime(chrono::NaiveDateTime);

/// The date and time that `text` reads as under the strftime-style `pattern`,
/// if it reads as one.
pub uninterp spec fn parsed_date(text: Seq<char>, pattern: Seq<char>) -> Option<
    chrono::NaiveDateTime,
>;

/// The text of `date` formatted with the strftime-style `pattern`, if the
/// pattern is one that can be formatted.
pub uninterp spec fn formatted_date(date: chrono::NaiveDateTime, pattern: Seq<char>) -> Option<
    Seq<char>,
>;

/// Relies on `chrono::NaiveDateTime::parse_from_str`: whether and to what the
/// text parses depends on the text and the pattern alone.
#[verifier::external_body]
pub(crate) fn parse_date(text: &str, pattern: &str) -> (r: Option<chrono::NaiveDateTime>)
    ensures
        r == parsed_date(text@, pattern@),
{
    chrono::NaiveDateTime::parse_from_str(text, pattern).ok()
}

/// Relies on `chrono::NaiveDateTime::format` and its `Display`: the text
/// depends on the date and the pattern alone, and writing it fails where the
/// pattern holds an item that chrono cannot format.
#[verifier::external_body]
pub(crate) fn format_date(date: &chrono::NaiveDateTime, pattern: &str) -> (r: Option<String>)
    ensures
        r matches Some(t) ==> formatted_date(*date, pattern@) == Some(t@),
        r is None ==> formatted_date(*date, pattern@) is None,
{
    let mut out = String::new();
    match write!(out, "{}", date.format(pattern)) {
        Ok(()) => Some(out),
        Err(_) => None,
    }
}

} // verus!
