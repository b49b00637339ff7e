use vstd::prelude::*;

verus! {

/// A point in time, in milliseconds since the Unix epoch (UTC).
#[derive(Debug, Clone, Copy, PartialEq, Eq, Structural)]
pub struct UtcTimestamp {
    pub millis: i64,
}

/// Whether `chrono::DateTime::<Utc>::from_timestamp_millis` accepts this
/// number of milliseconds, that is whether it lies in chrono's date range.
pub uninterp spec fn chrono_millis_representable(millis: i64) -> bool;

/// `chrono::DateTime::<Utc>::from_timestamp_millis`: tells whether it gives a
/// date for `millis` (it gives `None` when `millis` is out of chrono's range).
/// Chrono's dates reach about the year 262,142 on either side, so every
/// count of milliseconds in `[0, 2^48)` (up to about the year 10,889) has a
/// date; the exact ends of the range are left to the name above.
#[verifier::external_body]
fn datetime_accepts_millis(millis: i64) -> (ok: bool)
    ensures
        ok == chrono_millis_representable(millis),
        0 <= millis < 0x1_0000_0000_0000i64 ==> ok,
{
    chrono::DateTime::<chrono::Utc>::from_timestamp_millis(millis).is_some()
}

impl UtcTimestamp {
    /// The Unix epoch, 1970-01-01T00:00:00Z.
    pub fn epoch() -> (t: UtcTimestamp)
        ensures
            t.millis == 0,
    {
        UtcTimestamp { millis: 0 }
    }

    /// The date for `millis`, or the epoch where chrono has no date for it.
    pub fn from_millis_or_epoch(millis: i64) -> (t: UtcTimestamp)
        ensures
            t.millis == (if chrono_millis_representable(millis) { millis } else { 0 }),
            0 <= millis < 0x1_0000_0000_0000i64 ==> t.millis == millis,
    {
        if datetime_accepts_millis(millis) {
            UtcTimestamp { millis }
        } else {
            UtcTimestamp::epoch()
        }
    }
}

} // verus!
