use vstd::prelude::*;

verus! {

/// Nanoseconds in one second.
pub const NANOS_PER_SEC: u32 = 1_000_000_000;

/// Nanoseconds in one microsecond.
pub const NANOS_PER_MICRO: u32 = 1_000;

/// Microseconds in one second.
pub const MICROS_PER_SEC: i64 = 1_000_000;

/// A span of time: whole seconds and the nanoseconds of the second begun.
///
/// The nanosecond part is always below one second, so every span has exactly
/// one representation and two spans are equal when they last equally long.
#[derive(Debug, Clone, Copy, PartialEq, Eq, Structural)]
pub struct Duration {
    secs: u64,
    nanos: u32,
}

impl Duration {
    #[verifier::type_invariant]
    spec fn wf(self) -> bool {
        self.nanos < NANOS_PER_SEC
    }

    /// The whole seconds of the span.
    pub closed spec fn spec_secs(self) -> nat {
        self.secs as nat
    }

    /// The nanoseconds beyond the whole seconds.
    pub closed spec fn spec_subsec_nanos(self) -> nat {
        self.nanos as nat
    }

    /// The length of the span in nanoseconds.
    pub open spec fn spec_nanos(self) -> nat {
        self.spec_secs() * 1_000_000_000 + self.spec_subsec_nanos()
    }

    /// The empty span.
    pub fn zero() -> (d: Duration)
        ensures
            d.spec_nanos() == 0,
            d.spec_secs() == 0,
            d.spec_subsec_nanos() == 0,
    {
        Duration { secs: 0, nanos: 0 }
    }

    /// A span of `secs` whole seconds.
    pub fn from_secs(secs: u64) -> (d: Duration)
        ensures
            d.spec_secs() == secs,
            d.spec_subsec_nanos() == 0,
    {
        Duration { secs, nanos: 0 }
    }

    /// A span of `secs` whole seconds and `subsec_nanos` nanoseconds, where
    /// the nanoseconds stay below one second.
    pub fn from_parts(secs: u64, subsec_nanos: u32) -> (d: Option<Duration>)
        ensures
            d is Some <==> subsec_nanos < NANOS_PER_SEC,
            d matches Some(span) ==> span.spec_secs() == secs && span.spec_subsec_nanos()
                == subsec_nanos,
    {
        if subsec_nanos < NANOS_PER_SEC {
            Some(Duration { secs, nanos: subsec_nanos })
        } else {
            None
        }
    }

    /// A span of `millis` milliseconds.
    pub fn from_millis(millis: u64) -> (d: Duration)
        ensures
            d.spec_secs() == millis / 1_000,
            d.spec_subsec_nanos() == (millis % 1_000) * 1_000_000,
            d.spec_nanos() == millis * 1_000_000,
    {
        let secs: u64 = millis / 1000;
        let rest: u64 = millis % 1000;
        let nanos: u32 = (rest as u32) * 1_000_000;
        Duration { secs, nanos }
    }

    /// The span that a kernel `timeval` denotes: `sec` seconds and `usec`
    /// microseconds. A `timeval` with a negative part, or with a full second
    /// or more in its microseconds, denotes no span.
    pub fn from_timeval(sec: i64, usec: i64) -> (d: Option<Duration>)
        ensures
            d.is_some() <==> (0 <= sec && 0 <= usec < MICROS_PER_SEC),
            d matches Some(span) ==> {
                &&& span.spec_secs() == sec
                &&& span.spec_subsec_nanos() == usec * 1_000
            },
    {
        if sec < 0 || usec < 0 || usec >= MICROS_PER_SEC {
            None
        } else {
            let nanos: u32 = (usec as u32) * NANOS_PER_MICRO;
            Some(Duration { secs: sec as u64, nanos })
        }
    }

    /// The whole seconds of the span.
    pub fn as_secs(&self) -> (secs: u64)
        ensures
            secs == self.spec_secs(),
    {
        self.secs
    }

    /// The nanoseconds beyond the whole seconds, always below one second.
    pub fn subsec_nanos(&self) -> (nanos: u32)
        ensures
            nanos == self.spec_subsec_nanos(),
            nanos < NANOS_PER_SEC,
    {
        proof {
            use_type_invariant(self);
        }
        self.nanos
    }

    /// Whether the span lasts no time at all.
    pub fn is_zero(&self) -> (zero: bool)
        ensures
            zero <==> self.spec_nanos() == 0,
    {
        self.secs == 0 && self.nanos == 0
    }

    /// Whether `self` is strictly shorter than `other`.
    pub fn shorter_than(&self, other: &Duration) -> (shorter: bool)
        ensures
            shorter <==> self.spec_nanos() < other.spec_nanos(),
    {
        proof {
            use_type_invariant(self);
            use_type_invariant(other);
        }
        self.secs < other.secs || (self.secs == other.secs && self.nanos < other.nanos)
    }

    /// The time from `earlier` to `self`, and the empty span where `earlier`
    /// is not earlier at all.
    pub fn saturating_sub(&self, earlier: &Duration) -> (d: Duration)
        ensures
            d.spec_nanos() == if self.spec_nanos() >= earlier.spec_nanos() {
                self.spec_nanos() - earlier.spec_nanos()
            } else {
                0
            },
    {
        proof {
            use_type_invariant(self);
            use_type_invariant(earlier);
        }
        if self.shorter_than(earlier) {
            Duration { secs: 0, nanos: 0 }
        } else if self.nanos >= earlier.nanos {
            Duration { secs: self.secs - earlier.secs, nanos: self.nanos - earlier.nanos }
        } else {
            Duration {
                secs: self.secs - earlier.secs - 1,
                nanos: self.nanos + NANOS_PER_SEC - earlier.nanos,
            }
        }
    }
}

/// Two spans of equal length are the same span.
pub proof fn lemma_duration_by_length(a: Duration, b: Duration)
    requires
        a.spec_subsec_nanos() < 1_000_000_000,
        b.spec_subsec_nanos() < 1_000_000_000,
        a.spec_nanos() == b.spec_nanos(),
    ensures
        a.spec_secs() == b.spec_secs(),
        a.spec_subsec_nanos() == b.spec_subsec_nanos(),
{
}

} // verus!
