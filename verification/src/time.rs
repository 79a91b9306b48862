//! Points in time are milliseconds since the Unix epoch, bounded by the range of
//! instants that `chrono::DateTime<Utc>` can represent.

use vstd::prelude::*;

verus! {

/// Earliest representable instant (the first millisecond of year -262143, UTC).
pub const MIN_TIMESTAMP_MS: i64 = -8_334_601_315_200_000i64;

/// Latest representable instant (the last millisecond of year 262142, UTC).
pub const MAX_TIMESTAMP_MS: i64 = 8_210_266_876_799_999i64;

/// The Unix epoch.
pub const UNIX_EPOCH_MS: i64 = 0i64;

/// Largest magnitude, in seconds, of a span that `chrono::TimeDelta::seconds` accepts.
pub const MAX_DELTA_SECS: i64 = 9_223_372_036_854_775i64;

/// `ms` is an instant that a `DateTime<Utc>` can hold.
pub open spec fn valid_timestamp(ms: int) -> bool {
    MIN_TIMESTAMP_MS <= ms <= MAX_TIMESTAMP_MS
}

/// `secs` is a span that `TimeDelta::seconds` accepts without panicking.
pub open spec fn valid_delta_secs(secs: int) -> bool {
    -MAX_DELTA_SECS <= secs <= MAX_DELTA_SECS
}

/// The instant that `chrono` parses from the text `s` (a relaxed RFC 3339 date and
/// time), as milliseconds since the epoch, or `None` where it rejects the text.
pub uninterp spec fn parsed_timestamp(s: Seq<char>) -> Option<i64>;

/// The RFC 3339 text that `chrono` writes for the instant `ms`.
pub uninterp spec fn rfc3339_text(ms: i64) -> Seq<char>;

/// Parses `s` with `str::parse::<chrono::DateTime<chrono::Utc>>` and returns its
/// `timestamp_millis`. The result is named, and nothing is claimed of its range: the
/// parser takes signed years of any width and a leap second, and the millisecond count
/// of a leap second at the end of the range lies past `MAX_TIMESTAMP_MS`.
#[verifier::external_body]
pub fn parse_timestamp(s: &str) -> (r: Option<i64>)
    ensures
        r == parsed_timestamp(s@),
{
    match s.parse::<chrono::DateTime<chrono::Utc>>() {
        Ok(dt) => Some(dt.timestamp_millis()),
        Err(_) => None,
    }
}

/// The instant `chrono` reads from `s`, where it reads one in the representable range.
pub open spec fn parsed_valid_timestamp(s: Seq<char>) -> Option<i64> {
    match parsed_timestamp(s) {
        Some(ms) => if valid_timestamp(ms as int) { Some(ms) } else { None },
        None => None,
    }
}

/// Parses `s` as `parse_timestamp` does and keeps the instant only where it lies in the
/// representable range.
pub fn parse_valid_timestamp(s: &str) -> (r: Option<i64>)
    ensures
        r == parsed_valid_timestamp(s@),
        r matches Some(ms) ==> valid_timestamp(ms as int),
{
    match parse_timestamp(s) {
        Some(ms) => {
            if MIN_TIMESTAMP_MS <= ms && ms <= MAX_TIMESTAMP_MS {
                Some(ms)
            } else {
                None
            }
        },
        None => None,
    }
}

/// Writes the instant `ms` with `chrono::DateTime::to_rfc3339`, after building it with
/// `DateTime::from_timestamp_millis` (which succeeds on every representable instant).
#[verifier::external_body]
pub fn format_timestamp(ms: i64) -> (r: String)
    requires
        valid_timestamp(ms as int),
    ensures
        r@ == rfc3339_text(ms),
{
    match chrono::DateTime::from_timestamp_millis(ms) {
        Some(dt) => dt.to_rfc3339(),
        None => String::new(),
    }
}

} // verus!
