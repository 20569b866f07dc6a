//! Uptime from a last-modified time and the wall clock.
//!
//! On POSIX systems the entry that a process has for itself in the process
//! file system was last modified when the process started. The uptime is the
//! wall-clock time less that instant, and unknown where the clock lies before
//! it.

use vstd::prelude::*;
use crate::uptime::{Uptime, uptime_nanos, NANOS_PER_SEC};

verus! {

/// An instant of the wall clock: whole seconds from the Unix epoch, negative
/// before it, and the nanoseconds of the second that has begun.
///
/// Its view is the instant in nanoseconds from the epoch.
#[derive(Clone, Copy, Debug, PartialEq, Eq, Structural)]
pub struct Timestamp {
    secs: i64,
    nanos: u32,
}

impl View for Timestamp {
    type V = int;

    closed spec fn view(&self) -> int {
        self.secs * 1_000_000_000 + self.nanos
    }
}

impl Timestamp {
    /// The nanosecond part stays below one second, so that each instant has
    /// one representation.
    #[verifier::type_invariant]
    pub closed spec fn wf(self) -> bool {
        self.nanos < NANOS_PER_SEC
    }

    /// The instant `nanos` nanoseconds after the whole second `secs`, where
    /// `nanos` is less than one second; `None` where it is not.
    pub fn new(secs: i64, nanos: u32) -> (r: Option<Timestamp>)
        ensures
            r is Some <==> nanos < 1_000_000_000,
            r matches Some(t) ==> t.wf() && t@ == secs * 1_000_000_000 + nanos,
    {
        if nanos < NANOS_PER_SEC {
            Some(Timestamp { secs, nanos })
        } else {
            None
        }
    }

    /// The instant that lies `secs` seconds and `nanos` nanoseconds after the
    /// epoch; `None` where `nanos` is a second or more, or the seconds do not
    /// fit in 63 bits.
    pub fn after_epoch(secs: u64, nanos: u32) -> (r: Option<Timestamp>)
        ensures
            r is Some <==> nanos < 1_000_000_000 && secs <= i64::MAX,
            r matches Some(t) ==> t.wf() && t@ == secs * 1_000_000_000 + nanos,
    {
        if secs > i64::MAX as u64 {
            return None;
        }
        Timestamp::new(secs as i64, nanos)
    }

    /// The instant that lies `secs` seconds and `nanos` nanoseconds before the
    /// epoch; `None` where `nanos` is a second or more, or the instant lies
    /// more than 2^63 seconds before the epoch.
    pub fn before_epoch(secs: u64, nanos: u32) -> (r: Option<Timestamp>)
        ensures
            r is Some <==> nanos < 1_000_000_000 && secs * 1_000_000_000 + nanos
                <= 0x8000_0000_0000_0000 * 1_000_000_000,
            r matches Some(t) ==> t.wf() && t@ == -(secs * 1_000_000_000 + nanos),
    {
        if nanos >= NANOS_PER_SEC {
            return None;
        }
        if nanos == 0 {
            if secs > 0x8000_0000_0000_0000 {
                return None;
            }
            Timestamp::new((-(secs as i128)) as i64, 0)
        } else {
            if secs >= 0x8000_0000_0000_0000 {
                return None;
            }
            Timestamp::new((-(secs as i128) - 1) as i64, NANOS_PER_SEC - nanos)
        }
    }
}

/// The instant of a timestamp that may be absent.
pub open spec fn timestamp_nanos(t: Option<Timestamp>) -> Option<int> {
    match t {
        Some(t) => Some(t@),
        None => None,
    }
}

/// The uptime, in nanoseconds, of a process that started at instant
/// `created`, at instant `now`: the time between the two, and nothing where
/// `now` lies before `created`.
pub open spec fn clock_uptime(created: int, now: int) -> Option<int> {
    if created <= now {
        Some(now - created)
    } else {
        None
    }
}

/// The uptime that a query over the last-modified time reports. `modified`
/// and `now` are the two instants, each absent where it could not be read.
pub open spec fn modified_time_uptime(modified: Option<int>, now: Option<int>) -> Option<int> {
    match (modified, now) {
        (Some(m), Some(n)) => clock_uptime(m, n),
        _ => None,
    }
}

/// The time from `created` to `now`; `None` where `now` lies before
/// `created`.
pub fn elapsed_between(created: Timestamp, now: Timestamp) -> (r: Option<Uptime>)
    ensures
        uptime_nanos(r) == clock_uptime(created@, now@),
        r matches Some(u) ==> u.wf(),
{
    proof {
        use_type_invariant(&created);
        use_type_invariant(&now);
    }
    if now.secs < created.secs || (now.secs == created.secs && now.nanos < created.nanos) {
        return None;
    }
    let whole: i128 = now.secs as i128 - created.secs as i128;
    if now.nanos >= created.nanos {
        Uptime::from_parts(whole as u64, now.nanos - created.nanos)
    } else {
        Uptime::from_parts((whole - 1) as u64, now.nanos + NANOS_PER_SEC - created.nanos)
    }
}

/// The uptime that a query over the last-modified time reports: present
/// where both instants were read and the clock is not before the
/// last-modified time, and absent otherwise.
pub fn uptime_from_modified_time(modified: Option<Timestamp>, now: Option<Timestamp>) -> (r:
    Option<Uptime>)
    ensures
        uptime_nanos(r) == modified_time_uptime(timestamp_nanos(modified), timestamp_nanos(now)),
        r matches Some(u) ==> u.wf(),
{
    match (modified, now) {
        (Some(m), Some(n)) => elapsed_between(m, n),
        _ => None,
    }
}

} // verus!
