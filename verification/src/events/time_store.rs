//! The moment when the events were last looked at, kept as the modification
//! time of a file.
use vstd::prelude::*;
use crate::types::Timespec;

verus! {

/// Where the moment is kept.
pub struct TimeStore {
    pub store_file_path: String,
}

/// Milliseconds in a second.
pub const MSECS_IN_SEC: u64 = 1000;

impl TimeStore {
    /// A store that keeps its moment in the file at `path`.
    pub fn new(path: String) -> (r: TimeStore)
        ensures
            r.store_file_path@ == path@,
    {
        TimeStore { store_file_path: path }
    }
}

/// Nanoseconds in a millisecond.
pub const NSECS_IN_MSEC: u64 = 1_000_000;

/// The stored moment read from the file's modification time `modified`, in
/// milliseconds since the epoch: the whole seconds, and the milliseconds
/// below a second turned into nanoseconds, so that the moment that was
/// remembered reads back as itself (to the millisecond).
pub fn stored_time_from_modified(modified: u64) -> (r: Timespec)
    ensures
        r.sec == modified / MSECS_IN_SEC,
        r.nsec == (modified % MSECS_IN_SEC) * NSECS_IN_MSEC,
        0 <= r.nsec < 1_000_000_000,
        r.sec * MSECS_IN_SEC + (r.nsec as int) / (NSECS_IN_MSEC as int) == modified,
{
    let msec: u64 = modified % MSECS_IN_SEC;
    assert(msec * NSECS_IN_MSEC < 1_000_000_000) by (nonlinear_arith)
        requires
            msec < 1000,
    ;
    assert(((msec * NSECS_IN_MSEC) as int) / (NSECS_IN_MSEC as int) == msec) by (nonlinear_arith);
    Timespec { sec: (modified / MSECS_IN_SEC) as i64, nsec: (msec * NSECS_IN_MSEC) as i32 }
}

} // verus!
