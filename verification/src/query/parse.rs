//! What the parsers of other crates make of a text.
//!
//! Each is known here by name only: as a function of the characters it
//! is given. The library promises what it does with the outcome, not
//! what the outcome is.

use vstd::prelude::*;

verus! {

/// What parsing makes of a number written in decimal: the number, or
/// the text of the error.
pub uninterp spec fn u32_from_str(s: Seq<char>) -> Result<u32, Seq<char>>;

/// What parsing makes of an identifier written as a UUID: the
/// identifier as one big-endian number, or the text of the error.
pub uninterp spec fn uuid_from_str(s: Seq<char>) -> Result<u128, Seq<char>>;

/// What parsing makes of a time written as a timestamp: the time in
/// milliseconds since the Unix epoch, or the text of the error.
pub uninterp spec fn datetime_from_str(s: Seq<char>) -> Result<i64, Seq<char>>;

/// A parsed value, or the characters of the error in its place.
pub open spec fn parsed<T>(r: Result<T, String>) -> Result<T, Seq<char>> {
    match r {
        Ok(value) => Ok(value),
        Err(error) => Err(error@),
    }
}

/// `u32`'s `FromStr::from_str` of std, with the error as the text it
/// displays.
///
/// Claimed of it: the result depends on the characters of `s` alone.
#[verifier::external_body]
pub(crate) fn parse_u32(s: &str) -> (r: Result<u32, String>)
    ensures
        parsed(r) == u32_from_str(s@),
{
    match s.parse::<u32>() {
        Ok(n) => Ok(n),
        Err(e) => Err(e.to_string()),
    }
}

/// `uuid::Uuid`'s `FromStr::from_str`, with the identifier read as a
/// number by `Uuid::as_u128` and the error as the text it displays.
///
/// Claimed of it: the result depends on the characters of `s` alone.
#[verifier::external_body]
pub(crate) fn parse_uuid(s: &str) -> (r: Result<u128, String>)
    ensures
        parsed(r) == uuid_from_str(s@),
{
    match s.parse::<uuid::Uuid>() {
        Ok(id) => Ok(id.as_u128()),
        Err(e) => Err(e.to_string()),
    }
}

/// `chrono::DateTime<Utc>`'s `FromStr::from_str`, with the time taken
/// in milliseconds by `DateTime::timestamp_millis` and the error as the
/// text it displays.
///
/// Claimed of it: the result depends on the characters of `s` alone.
#[verifier::external_body]
pub(crate) fn parse_datetime(s: &str) -> (r: Result<i64, String>)
    ensures
        parsed(r) == datetime_from_str(s@),
{
    match s.parse::<chrono::DateTime<chrono::Utc>>() {
        Ok(time) => Ok(time.timestamp_millis()),
        Err(e) => Err(e.to_string()),
    }
}

} // verus!
