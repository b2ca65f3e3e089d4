use vstd::prelude::*;

verus! {

/// Safety margin, in seconds, subtracted from a short token's remaining
/// lifetime when deciding whether it is still usable: a token is refreshed
/// once `now + REFRESH_BUFFER_SECS` reaches its expiry, so that clock skew and
/// in-flight latency cannot push a request past the real expiry.
pub const REFRESH_BUFFER_SECS: i64 = 60;

/// The instant, in seconds since the Unix epoch, that an RFC 3339 timestamp
/// string denotes, or `None` where the string is not a valid RFC 3339
/// date-and-time. The outcome depends on the characters alone.
pub uninterp spec fn rfc3339_secs(s: Seq<char>) -> Option<int>;

/// Relies on chrono's `DateTime::parse_from_rfc3339`, which accepts exactly
/// the valid RFC 3339 date-and-time strings, and on `DateTime::timestamp`,
/// which converts the parsed instant to seconds since the Unix epoch. Both
/// are pure functions of the input string.
#[verifier::external_body]
pub fn parse_rfc3339_secs(s: &str) -> (r: Option<i64>)
    ensures
        match r {
            Some(t) => rfc3339_secs(s@) == Some(t as int),
            None => rfc3339_secs(s@) is None,
        },
{
    match chrono::DateTime::parse_from_rfc3339(s) {
        Ok(dt) => Some(dt.timestamp()),
        Err(_) => None,
    }
}

/// The refresh decision rule: a cached short token (paired with its expiry)
/// must be refreshed when it is absent or when `now` is within the refresh
/// buffer of its expiry.
pub open spec fn spec_needs_refresh(short: Option<(Seq<char>, int)>, now: int) -> bool {
    match short {
        None => true,
        Some(entry) => now + REFRESH_BUFFER_SECS as int >= entry.1,
    }
}

} // verus!
