//! Instants written as RFC 3339 text, through chrono.
use vstd::prelude::*;
use crate::model::Timestamp;

verus! {

/// The largest number of seconds, either side of 1970, for which an instant is
/// always within chrono's range of dates (about 253,000 years; chrono reaches
/// year 262,142 either way).
pub const TIMESTAMP_LIMIT_SECS: i64 = 8_000_000_000_000;

/// Whether `t` is an instant that chrono can always represent.
pub open spec fn timestamp_in_range(t: Timestamp) -> bool {
    -TIMESTAMP_LIMIT_SECS <= t.secs <= TIMESTAMP_LIMIT_SECS && t.nanos < 1_000_000_000
}

/// The RFC 3339 text of an instant, as chrono writes it when it serialises a
/// UTC date and time (`Z` for the offset, fractional digits only where needed);
/// `None` where chrono cannot represent the instant.
pub uninterp spec fn rfc3339_text(secs: i64, nanos: u32) -> Option<Seq<char>>;

/// The instant that chrono reads from a text, as seconds and nanoseconds since
/// 1970 in UTC; `None` where chrono refuses the text.
pub uninterp spec fn rfc3339_reading(s: Seq<char>) -> Option<(i64, u32)>;

/// Relies on chrono's `DateTime::<Utc>::from_timestamp` and
/// `DateTime::to_rfc3339_opts(SecondsFormat::AutoSi, true)`: the text depends on
/// the instant alone, and `from_timestamp` gives a value for every nanosecond
/// count under one second and every second count within chrono's years.
#[verifier::external_body]
pub(crate) fn format_rfc3339(t: Timestamp) -> (r: Option<String>)
    ensures
        match r {
            Some(s) => rfc3339_text(t.secs, t.nanos) == Some(s@),
            None => rfc3339_text(t.secs, t.nanos) is None,
        },
        timestamp_in_range(t) ==> r is Some,
{
    match chrono::DateTime::from_timestamp(t.secs, t.nanos) {
        Some(d) => Some(d.to_rfc3339_opts(chrono::SecondsFormat::AutoSi, true)),
        None => None,
    }
}

/// Relies on chrono's `FromStr` for `DateTime<Utc>` (RFC 3339, with any offset,
/// converted to UTC) and on `timestamp` and `timestamp_subsec_nanos`: the result
/// depends on the text alone.
#[verifier::external_body]
pub(crate) fn parse_rfc3339(s: &str) -> (r: Option<(i64, u32)>)
    ensures
        r == rfc3339_reading(s@),
{
    match s.parse::<chrono::DateTime<chrono::Utc>>() {
        Ok(d) => Some((d.timestamp(), d.timestamp_subsec_nanos())),
        Err(_) => None,
    }
}

} // verus!
