//! The current time and the display of stored instants, from chrono.
use vstd::prelude::*;

verus! {

/// The last second (9999-12-31 23:59:59 UTC) that is certain to be displayable.
pub const MAX_DISPLAY_SECS: i64 = 253402300799;

/// The last second (262142-12-31 23:59:59 UTC) of chrono's range of years.
pub const MAX_CLOCK_SECS: i64 = 8210266876799;

/// The display text, `%Y-%m-%d %H:%M:%S` in UTC, of the instant `secs` seconds
/// after the epoch, when chrono can represent it.
pub uninterp spec fn datetime_text_of(secs: int) -> Option<Seq<char>>;

/// Relies on `chrono::Utc::now` and `DateTime::timestamp`: the current instant,
/// as whole seconds since the epoch. `now` panics on a clock set before the
/// epoch and otherwise unwraps `DateTime::from_timestamp`, so the instant lies
/// within chrono's years (at most 262142).
#[verifier::external_body]
pub(crate) fn now_timestamp() -> (r: i64)
    ensures
        0 <= r <= MAX_CLOCK_SECS,
{
    chrono::Utc::now().timestamp()
}

/// Relies on `chrono::DateTime::from_timestamp`, which is `None` only for an
/// instant outside chrono's range of years (far beyond 1970..=9999), and on
/// `format` with the layout `%Y-%m-%d %H:%M:%S`.
#[verifier::external_body]
pub(crate) fn datetime_text(secs: i64) -> (r: Option<String>)
    ensures
        match r {
            Some(s) => datetime_text_of(secs as int) == Some(s@),
            None => datetime_text_of(secs as int) is None,
        },
        0 <= secs <= MAX_DISPLAY_SECS ==> r is Some,
{
    match chrono::DateTime::from_timestamp(secs, 0) {
        Some(d) => Some(d.format("%Y-%m-%d %H:%M:%S").to_string()),
        None => None,
    }
}

} // verus!
