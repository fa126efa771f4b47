use vstd::prelude::*;
use crate::error::{bridged, translate, Error, ErrorReport};
use crate::status::STATUS_SUCCESS;

verus! {

/// FILETIME counts intervals of 100 ns.
pub const TICKS_PER_SECOND: u64 = 10_000_000;

/// Nanoseconds in one FILETIME interval.
pub const NANOS_PER_TICK: u32 = 100;

/// Seconds from 1601-01-01, the FILETIME epoch, to 1970-01-01, the Unix epoch.
pub const EPOCH_DIFFERENCE_SECONDS: i64 = 11_644_473_600;

/// An instant in UTC: whole seconds since the Unix epoch (negative before it)
/// and the nanoseconds past that second.
#[derive(Clone, Copy, Debug, PartialEq, Eq, Structural)]
pub struct Timestamp {
    pub seconds: i64,
    pub nanoseconds: u32,
}

/// The Unix seconds of a FILETIME value.
pub open spec fn filetime_seconds(ft: u64) -> int {
    ft as int / TICKS_PER_SECOND as int - EPOCH_DIFFERENCE_SECONDS as int
}

/// The nanoseconds past the second of a FILETIME value.
pub open spec fn filetime_nanos(ft: u64) -> int {
    (ft as int % TICKS_PER_SECOND as int) * NANOS_PER_TICK as int
}

/// Converts a FILETIME value into the instant it stands for.
pub fn timestamp_from_filetime(ft: u64) -> (t: Timestamp)
    ensures
        t.seconds == filetime_seconds(ft),
        t.nanoseconds == filetime_nanos(ft),
        t.nanoseconds < 1_000_000_000,
{
    let whole = ft / TICKS_PER_SECOND;
    let rest = ft % TICKS_PER_SECOND;
    assert(whole <= 1_844_674_407_370);
    let seconds = whole as i64 - EPOCH_DIFFERENCE_SECONDS;
    let nanoseconds = rest as u32 * NANOS_PER_TICK;
    Timestamp { seconds, nanoseconds }
}

/// Outcome of a native date getter: a failure bridged from the error slot,
/// or the instant that the FILETIME value stands for (zero is 1601-01-01).
pub fn date_result(status: i32, ft: u64, report: ErrorReport) -> (r: Result<Timestamp, Error>)
    ensures
        status != STATUS_SUCCESS ==> r is Err && r->Err_0@ == bridged(status as int, report),
        status == STATUS_SUCCESS ==> r is Ok && r->Ok_0.seconds == filetime_seconds(ft)
            && r->Ok_0.nanoseconds == filetime_nanos(ft),
{
    if status != STATUS_SUCCESS {
        Err(translate(status as i64, report))
    } else {
        Ok(timestamp_from_filetime(ft))
    }
}

} // verus!
