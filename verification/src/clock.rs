//! The wall clock.
use vstd::prelude::*;

verus! {

/// The shape of the timestamps of this crate: RFC 3339 text with the offset of UTC.
pub open spec fn is_utc_timestamp(ts: Seq<char>) -> bool {
    ts.len() >= 25 && ts.skip(ts.len() - 6) == "+00:00"@
}

/// The current time as text, from `chrono::Utc::now` and `chrono::DateTime::to_rfc3339`.
///
/// Trusted: whatever the time is, the text holds a date and a time of day (nineteen characters at
/// least) and ends with the offset `+00:00`. Which time it is, no contract can say. `Utc::now`
/// panics on a machine whose clock stands before 1970.
#[verifier::external_body]
pub(crate) fn utc_now() -> (r: String)
    ensures
        is_utc_timestamp(r@),
{
    chrono::Utc::now().to_rfc3339()
}

} // verus!
