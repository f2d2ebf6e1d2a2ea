//! Points in time: the wall clock and timestamps written as text.

use vstd::prelude::*;
use crate::record::UnixNanos;
use crate::text::{trim, trimmed};

verus! {

/// What reading a text as an RFC 3339 timestamp gives: the point in time it
/// names, in nanoseconds since the epoch, or the parser's complaint where
/// the text is no such timestamp.
pub uninterp spec fn rfc3339(text: Seq<char>) -> Result<i128, Seq<char>>;

/// Reads an RFC 3339 timestamp.
///
/// Trusted: stands for `time::OffsetDateTime::parse` with the well-known
/// format `Rfc3339`, followed by `unix_timestamp_nanos` on success and by
/// the error's display text on failure. Whether the text parses, to which
/// instant, and with which complaint, depends on the text alone.
#[verifier::external_body]
fn parse_rfc3339(text: &str) -> (read: Result<i128, String>)
    ensures
        match read {
            Ok(nanos) => rfc3339(text@) == Ok::<i128, Seq<char>>(nanos),
            Err(complaint) => rfc3339(text@) == Err::<i128, Seq<char>>(complaint@),
        },
{
    match time::OffsetDateTime::parse(text, &time::format_description::well_known::Rfc3339) {
        Ok(instant) => Ok(instant.unix_timestamp_nanos()),
        Err(e) => Err(e.to_string()),
    }
}

/// The wall-clock time, in nanoseconds since the epoch.
///
/// Trusted: stands for `std::time::SystemTime::now`, measured from
/// `UNIX_EPOCH`. Nothing is promised of the value.
#[verifier::external_body]
pub(crate) fn now() -> (nanos: UnixNanos) {
    match std::time::SystemTime::now().duration_since(std::time::UNIX_EPOCH) {
        Ok(after) => after.as_nanos() as i128,
        Err(before) => -(before.duration().as_nanos() as i128),
    }
}

/// What reading a timestamp text gives once the white space around it is
/// taken off.
pub open spec fn read_ts(text: Seq<char>) -> Result<i128, Seq<char>> {
    rfc3339(trimmed(text))
}

/// The instant that a timestamp text names, if it names one.
pub open spec fn ts_of(text: Seq<char>) -> Option<i128> {
    match read_ts(text) {
        Ok(nanos) => Some(nanos),
        Err(_) => None,
    }
}

/// Reads a timestamp: RFC 3339, with white space allowed around it. The
/// error is the parser's complaint.
pub fn read_timestamp(ts: &str) -> (read: Result<UnixNanos, String>)
    ensures
        match read {
            Ok(nanos) => read_ts(ts@) == Ok::<i128, Seq<char>>(nanos),
            Err(complaint) => read_ts(ts@) == Err::<i128, Seq<char>>(complaint@),
        },
{
    parse_rfc3339(trim(ts))
}

/// Reads a timestamp: RFC 3339, with white space allowed around it.
pub fn parse_ts(ts: &str) -> (nanos: Option<UnixNanos>)
    ensures
        nanos == ts_of(ts@),
{
    match read_timestamp(ts) {
        Ok(nanos) => Some(nanos),
        Err(_) => None,
    }
}

} // verus!
