//! Trusted boundary to the datetime library: parsing a timestamp field of the
//! record file and writing one back.

use vstd::prelude::*;

verus! {

/// Earliest epoch-second timestamp a datetime value can represent
/// (`chrono::DateTime::<Utc>::MIN_UTC.timestamp()`).
pub const TIMESTAMP_MIN: i64 = -8334601228800;

/// Latest epoch-second timestamp a datetime value can represent
/// (`chrono::DateTime::<Utc>::MAX_UTC.timestamp()`).
pub const TIMESTAMP_MAX: i64 = 8210266876799;

/// The epoch-second instant denoted by a datetime field: `None` where the
/// text is not an RFC 3339-like timestamp with an explicit offset.
pub uninterp spec fn epoch_of_text(s: Seq<char>) -> Option<i64>;

/// Relies on chrono's `FromStr` for `DateTime<FixedOffset>` (the relaxed
/// RFC 3339 parser; `DateTime<Local>` parsing goes through the same function
/// and the epoch second count is offset-independent) and on
/// `DateTime::timestamp`. The result depends on the text alone, and every
/// representable instant lies between `DateTime::MIN_UTC`'s and
/// `DateTime::MAX_UTC`'s timestamps.
#[verifier::external_body]
pub(crate) fn parse_datetime(s: &str) -> (r: Option<i64>)
    ensures
        r == epoch_of_text(s@),
        r is Some ==> TIMESTAMP_MIN <= r->Some_0 <= TIMESTAMP_MAX,
{
    match s.parse::<chrono::DateTime<chrono::FixedOffset>>() {
        Ok(dt) => Some(dt.timestamp()),
        Err(_) => None,
    }
}

/// Relies on chrono's `DateTime::from_timestamp`, which is defined on exactly
/// the timestamps between `TIMESTAMP_MIN` and `TIMESTAMP_MAX` and round-trips
/// with `DateTime::timestamp`, and on `DateTime::to_rfc3339`, whose output
/// the relaxed RFC 3339 parser behind `epoch_of_text` maps back to the same
/// instant (out-of-range years are written with the explicit sign that the
/// parser requires of them).
#[verifier::external_body]
pub(crate) fn format_datetime(t: i64) -> (r: String)
    requires
        TIMESTAMP_MIN <= t <= TIMESTAMP_MAX,
    ensures
        epoch_of_text(r@) == Some(t),
{
    match chrono::DateTime::from_timestamp(t, 0) {
        Some(dt) => dt.to_rfc3339(),
        None => String::new(),
    }
}

} // verus!
