//! Uptime from two instants counted in 100-nanosecond ticks.
//!
//! Windows reports the creation time of a process and the system time as
//! file times: 64-bit tick counts from a shared epoch, each handed over as
//! two 32-bit halves. The uptime is their difference in whole milliseconds.

use vstd::prelude::*;
use crate::uptime::{Uptime, uptime_nanos};

verus! {

/// Ticks in one millisecond.
pub const TICKS_PER_MILLI: u64 = 10_000;

/// A file time as the system hands it over: the low and the high half of a
/// 64-bit tick count.
#[derive(Clone, Copy, Debug, PartialEq, Eq, Structural)]
pub struct FileTime {
    pub low: u32,
    pub high: u32,
}

impl FileTime {
    /// The tick count that the two halves stand for.
    pub open spec fn ticks_spec(self) -> int {
        self.high * 0x1_0000_0000 + self.low
    }

    /// The tick count that the two halves stand for.
    pub fn ticks(&self) -> (t: u64)
        ensures
            t == self.ticks_spec(),
    {
        let high: u64 = self.high as u64;
        let low: u64 = self.low as u64;
        assert((high << 32) | low == high * 0x1_0000_0000 + low) by (bit_vector)
            requires
                high <= 0xffff_ffff,
                low <= 0xffff_ffff,
        ;
        (high << 32) | low
    }
}

/// The uptime, in nanoseconds, of a process created at tick `start` and seen
/// at tick `now`: the whole milliseconds between the two, and nothing where
/// `now` lies before `start`.
pub open spec fn ticks_uptime(start: int, now: int) -> Option<int> {
    if start <= now {
        Some(((now - start) / 10_000) * 1_000_000)
    } else {
        None
    }
}

/// The uptime that a query over the process times reports. `handle` is the
/// handle of the process; `creation` and `system` are the two file times,
/// each absent where the system call that fetches it failed.
pub open spec fn process_times_uptime(
    handle: int,
    creation: Option<FileTime>,
    system: Option<FileTime>,
) -> Option<int> {
    if handle == 0 {
        None
    } else {
        match (creation, system) {
            (Some(c), Some(s)) => ticks_uptime(c.ticks_spec(), s.ticks_spec()),
            _ => None,
        }
    }
}

/// Whether a process handle can be queried. Only the null handle cannot: the
/// handle that stands for the current process is the pseudo handle -1.
pub fn handle_is_usable(handle: isize) -> (usable: bool)
    ensures
        usable == (handle != 0),
{
    handle != 0
}

/// The uptime of a process created at tick `start`, at tick `now`.
pub fn uptime_from_ticks(start: u64, now: u64) -> (r: Option<Uptime>)
    ensures
        uptime_nanos(r) == ticks_uptime(start as int, now as int),
        r matches Some(u) ==> u.wf(),
{
    if now < start {
        return None;
    }
    let diff: u64 = now - start;
    let millis: u64 = diff / TICKS_PER_MILLI;
    Some(Uptime::from_millis(millis))
}

/// The uptime that a query over the process times reports: present where
/// the handle is usable, both file times were fetched and the system time is
/// not before the creation time, and absent otherwise.
pub fn uptime_from_process_times(
    handle: isize,
    creation: Option<FileTime>,
    system: Option<FileTime>,
) -> (r: Option<Uptime>)
    ensures
        uptime_nanos(r) == process_times_uptime(handle as int, creation, system),
        r matches Some(u) ==> u.wf(),
{
    if !handle_is_usable(handle) {
        return None;
    }
    let start: u64 = match creation {
        Some(ft) => ft.ticks(),
        None => {
            return None;
        },
    };
    let now: u64 = match system {
        Some(ft) => ft.ticks(),
        None => {
            return None;
        },
    };
    uptime_from_ticks(start, now)
}

} // verus!
