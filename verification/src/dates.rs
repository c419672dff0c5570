//! Timestamp text codec. The remote manifest spells last-modified instants as
//! `Sat, 01 Jan 2023 00:00:00 UTC`-style text; in memory they are seconds
//! since the Unix epoch.

use vstd::prelude::*;

verus! {

/// What `parse_mtime` returns: the instant a manifest timestamp text denotes,
/// or `None` when the text does not match the format. A function of the text
/// alone.
pub uninterp spec fn spec_parse_mtime(s: Seq<char>) -> Option<i64>;

/// What `format_mtime` returns: the manifest spelling of an instant, a
/// function of the instant alone.
pub uninterp spec fn spec_format_mtime(t: i64) -> Seq<char>;

/// Relies on chrono's `NaiveDateTime::parse_from_str` with the manifest's
/// `%a, %d %b %Y %H:%M:%S %Z` format: the outcome depends on the text alone,
/// and a text that does not match the format is an error, never a panic.
#[verifier::external_body]
pub fn parse_mtime(s: &str) -> (r: Option<i64>)
    ensures
        r == spec_parse_mtime(s@),
{
    chrono::NaiveDateTime::parse_from_str(s, "%a, %d %b %Y %H:%M:%S %Z")
        .ok()
        .map(|dt| dt.and_utc().timestamp())
}

/// Relies on chrono's `DateTime::<Utc>::from_timestamp` and its formatting
/// with the same format, which use fixed English names and no locale: the
/// text depends on the instant alone. An instant outside chrono's
/// representable range formats as the empty string.
#[verifier::external_body]
pub fn format_mtime(t: i64) -> (r: String)
    ensures
        r@ == spec_format_mtime(t),
{
    match chrono::DateTime::<chrono::Utc>::from_timestamp(t, 0) {
        Some(dt) => dt.format("%a, %d %b %Y %H:%M:%S %Z").to_string(),
        None => String::new(),
    }
}

} // verus!
