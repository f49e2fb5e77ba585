//! The wall clock, read through `chrono`.

use vstd::prelude::*;

verus! {

/// A timestamp written with a zero UTC offset: it ends in `+00:00`.
pub open spec fn utc_offset_suffix(s: Seq<char>) -> bool {
    s.len() >= 6 && s.subrange(s.len() - 6, s.len() as int) == "+00:00"@
}

/// The current UTC time as an RFC 3339 string.
///
/// Calls `chrono::Utc::now()` and then `DateTime::to_rfc3339`. The instant
/// depends on the time of the call, so of the value only its fixed ending
/// is claimed: `to_rfc3339` writes the offset with `use_z` off, and `Utc`'s
/// offset is zero, which chrono writes as `+00:00`. chrono panics if the
/// system clock reads a time before the Unix epoch.
#[verifier::external_body]
pub fn now_rfc3339() -> (s: String)
    ensures
        utc_offset_suffix(s@),
{
    chrono::Utc::now().to_rfc3339()
}

} // verus!
