//! Timestamps, through chrono.

use vstd::prelude::*;

verus! {

/// The milliseconds since the Unix epoch of an RFC 3339 timestamp, as chrono
/// reads it; `None` when chrono rejects the text.
pub uninterp spec fn rfc3339_millis(text: Seq<char>) -> Option<int>;

/// chrono's `DateTime::parse_from_rfc3339(text)` and, on success, its
/// `timestamp_millis()`. The result is trusted to be `rfc3339_millis(text)`:
/// it depends on the text alone (the offset is part of the text).
#[verifier::external_body]
pub fn parse_rfc3339_millis(text: &str) -> (r: Option<i64>)
    ensures
        match r {
            Some(n) => rfc3339_millis(text@) == Some(n as int),
            None => rfc3339_millis(text@) is None,
        },
{
    match chrono::DateTime::parse_from_rfc3339(text) {
        Ok(timestamp) => Some(timestamp.timestamp_millis()),
        Err(_) => None,
    }
}

/// chrono's `Utc::now().timestamp_millis()`: the current time, of which
/// nothing is stated.
#[verifier::external_body]
pub fn utc_now_millis() -> (r: i64) {
    chrono::Utc::now().timestamp_millis()
}

/// chrono's `Utc::now().to_rfc3339_opts(SecondsFormat::Millis, true)`: the
/// current time as RFC 3339 text, of which nothing is stated.
#[verifier::external_body]
pub fn utc_now_rfc3339_millis() -> (r: String) {
    chrono::Utc::now().to_rfc3339_opts(chrono::SecondsFormat::Millis, true)
}

} // verus!
