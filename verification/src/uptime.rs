//! The span of time that a query reports.

use vstd::prelude::*;

verus! {

/// Nanoseconds in one second.
pub const NANOS_PER_SEC: u32 = 1_000_000_000;

/// Nanoseconds in one millisecond.
pub const NANOS_PER_MILLI: u32 = 1_000_000;

/// Milliseconds in one second.
pub const MILLIS_PER_SEC: u64 = 1_000;

/// A span of time that is never negative: whole seconds and the nanoseconds
/// of the second that has begun.
///
/// Its view is the whole span in nanoseconds.
#[derive(Clone, Copy, Debug, PartialEq, Eq, Structural)]
pub struct Uptime {
    secs: u64,
    nanos: u32,
}

impl View for Uptime {
    type V = nat;

    closed spec fn view(&self) -> nat {
        (self.secs as nat) * (NANOS_PER_SEC as nat) + (self.nanos as nat)
    }
}

/// The nanoseconds of an uptime that may be absent.
pub open spec fn uptime_nanos(r: Option<Uptime>) -> Option<int> {
    match r {
        Some(u) => Some(u@ as int),
        None => None,
    }
}

impl Uptime {
    /// The nanosecond part stays below one second, so that each span has one
    /// representation.
    #[verifier::type_invariant]
    pub closed spec fn wf(self) -> bool {
        self.nanos < NANOS_PER_SEC
    }

    /// Two well-formed uptimes of the same length are the same value.
    pub proof fn lemma_view_injective(a: Uptime, b: Uptime)
        requires
            a.wf(),
            b.wf(),
            a@ == b@,
        ensures
            a == b,
    {
    }

    /// The span of `secs` whole seconds.
    pub fn from_secs(secs: u64) -> (u: Uptime)
        ensures
            u.wf(),
            u@ == secs * 1_000_000_000,
    {
        Uptime { secs, nanos: 0 }
    }

    /// The span of `millis` whole milliseconds.
    pub fn from_millis(millis: u64) -> (u: Uptime)
        ensures
            u.wf(),
            u@ == millis * 1_000_000,
    {
        let secs: u64 = millis / MILLIS_PER_SEC;
        let rest: u32 = (millis % MILLIS_PER_SEC) as u32;
        Uptime { secs, nanos: rest * NANOS_PER_MILLI }
    }

    /// The span of `secs` seconds and `nanos` nanoseconds, where `nanos` is
    /// less than one second; `None` where it is not.
    pub fn from_parts(secs: u64, nanos: u32) -> (r: Option<Uptime>)
        ensures
            r is Some <==> nanos < 1_000_000_000,
            r matches Some(u) ==> u.wf() && u@ == secs * 1_000_000_000 + nanos,
    {
        if nanos < NANOS_PER_SEC {
            Some(Uptime { secs, nanos })
        } else {
            None
        }
    }

    /// The whole seconds of the span.
    pub fn as_secs(&self) -> (s: u64)
        ensures
            s == self@ / 1_000_000_000,
    {
        proof {
            use_type_invariant(self);
        }
        self.secs
    }

    /// The nanoseconds beyond the whole seconds.
    pub fn subsec_nanos(&self) -> (n: u32)
        ensures
            n == self@ % 1_000_000_000,
    {
        proof {
            use_type_invariant(self);
        }
        self.nanos
    }

    /// The whole milliseconds of the span.
    pub fn as_millis(&self) -> (m: u128)
        ensures
            m == self@ / 1_000_000,
    {
        proof {
            use_type_invariant(self);
        }
        let per_sec: u128 = MILLIS_PER_SEC as u128;
        assert(per_sec == 1_000);
        (self.secs as u128) * per_sec + ((self.nanos / NANOS_PER_MILLI) as u128)
    }

    /// The span in nanoseconds.
    pub fn as_nanos(&self) -> (n: u128)
        ensures
            n == self@,
    {
        proof {
            use_type_invariant(self);
        }
        let per_sec: u128 = NANOS_PER_SEC as u128;
        assert(per_sec == 1_000_000_000);
        (self.secs as u128) * per_sec + (self.nanos as u128)
    }
}

} // verus!
