//! Spans of time and points on a monotonic clock, as exact nanosecond counts.
//!
//! Nothing in this crate reads a clock. Callers pass the current [`Instant`] in, so every
//! time-dependent decision is a function of its arguments.
use core::cmp::Ordering;
use vstd::prelude::*;
use vstd::std_specs::cmp::PartialOrdSpecImpl;

verus! {

/// Nanoseconds in one second.
pub const NANOS_PER_SEC: u128 = 1_000_000_000;

/// Nanoseconds in one millisecond.
pub const NANOS_PER_MILLI: u128 = 1_000_000;

/// Nanoseconds in one microsecond.
pub const NANOS_PER_MICRO: u128 = 1_000;

/// The longest span: `u64::MAX` seconds and 999 999 999 nanoseconds.
pub const MAX_NANOS: u128 = 18_446_744_073_709_551_615_999_999_999;

/// A span of time of at most [`MAX_NANOS`] nanoseconds. Its view is the nanosecond count.
#[derive(Debug, Clone, Copy, PartialEq, Eq, Ord, Hash, Structural)]
pub struct Duration {
    nanos: u128,
}

impl View for Duration {
    type V = nat;

    closed spec fn view(&self) -> nat {
        self.nanos as nat
    }
}

impl Duration {
    #[verifier::type_invariant]
    spec fn in_range(self) -> bool {
        self.nanos <= MAX_NANOS
    }

    /// The span of zero length.
    pub fn zero() -> (r: Self)
        ensures
            r@ == 0,
    {
        Duration { nanos: 0 }
    }

    /// `secs` whole seconds and `subsec_nanos` nanoseconds.
    pub fn new(secs: u64, subsec_nanos: u32) -> (r: Self)
        requires
            subsec_nanos < NANOS_PER_SEC,
        ensures
            r@ == secs * NANOS_PER_SEC + subsec_nanos,
    {
        Duration { nanos: (secs as u128) * NANOS_PER_SEC + (subsec_nanos as u128) }
    }

    /// `nanos` nanoseconds.
    pub fn from_nanos(nanos: u64) -> (r: Self)
        ensures
            r@ == nanos,
    {
        Duration { nanos: nanos as u128 }
    }

    /// `micros` microseconds.
    pub fn from_micros(micros: u64) -> (r: Self)
        ensures
            r@ == micros * NANOS_PER_MICRO,
    {
        Duration { nanos: (micros as u128) * NANOS_PER_MICRO }
    }

    /// `millis` milliseconds.
    pub fn from_millis(millis: u64) -> (r: Self)
        ensures
            r@ == millis * NANOS_PER_MILLI,
    {
        Duration { nanos: (millis as u128) * NANOS_PER_MILLI }
    }

    /// `secs` seconds.
    pub fn from_secs(secs: u64) -> (r: Self)
        ensures
            r@ == secs * NANOS_PER_SEC,
    {
        Duration { nanos: (secs as u128) * NANOS_PER_SEC }
    }

    /// The length in nanoseconds.
    pub fn as_nanos(&self) -> (r: u128)
        ensures
            r == self@,
            r <= MAX_NANOS,
    {
        proof {
            use_type_invariant(self);
        }
        self.nanos
    }

    /// The longer of two spans.
    pub fn max(self, other: Self) -> (r: Self)
        ensures
            r@ == if self@ < other@ {
                other@
            } else {
                self@
            },
    {
        if self.nanos < other.nanos {
            other
        } else {
            self
        }
    }

    /// `factor` times this span, saturating at [`MAX_NANOS`].
    pub fn saturating_mul(self, factor: u32) -> (r: Self)
        ensures
            r@ == if self@ * factor > MAX_NANOS {
                MAX_NANOS as int
            } else {
                self@ * factor
            },
    {
        proof {
            use_type_invariant(&self);
        }
        assert(self.nanos * factor <= MAX_NANOS * 0xFFFF_FFFF) by (nonlinear_arith)
            requires
                self.nanos <= MAX_NANOS,
                factor <= 0xFFFF_FFFF,
        ;
        let product: u128 = self.nanos * (factor as u128);
        if product > MAX_NANOS {
            Duration { nanos: MAX_NANOS }
        } else {
            Duration { nanos: product }
        }
    }

    /// The difference of two spans, or `None` when `rhs` is the longer one.
    pub fn checked_sub(self, rhs: Self) -> (r: Option<Self>)
        ensures
            r is Some <==> rhs@ <= self@,
            r matches Some(d) ==> d@ == self@ - rhs@,
    {
        proof {
            use_type_invariant(&self);
        }
        if rhs.nanos <= self.nanos {
            Some(Duration { nanos: self.nanos - rhs.nanos })
        } else {
            None
        }
    }
}

impl Default for Duration {
    fn default() -> (r: Self)
        ensures
            r@ == 0,
    {
        Duration { nanos: 0 }
    }
}

impl PartialOrd for Duration {
    fn partial_cmp(&self, other: &Self) -> (r: Option<Ordering>) {
        if self.nanos < other.nanos {
            Some(Ordering::Less)
        } else if self.nanos > other.nanos {
            Some(Ordering::Greater)
        } else {
            Some(Ordering::Equal)
        }
    }
}

impl PartialOrdSpecImpl for Duration {
    open spec fn obeys_partial_cmp_spec() -> bool {
        true
    }

    open spec fn partial_cmp_spec(&self, other: &Self) -> Option<Ordering> {
        if self@ < other@ {
            Some(Ordering::Less)
        } else if self@ > other@ {
            Some(Ordering::Greater)
        } else {
            Some(Ordering::Equal)
        }
    }
}

/// A point on a monotonic clock. Its view is the nanosecond count since the clock's origin.
#[derive(Debug, Clone, Copy, PartialEq, Eq, Hash, Structural)]
pub struct Instant {
    since_origin: Duration,
}

impl View for Instant {
    type V = nat;

    closed spec fn view(&self) -> nat {
        self.since_origin@
    }
}

impl Instant {
    /// The point that lies `since_origin` after the origin of the clock.
    pub fn at(since_origin: Duration) -> (r: Self)
        ensures
            r@ == since_origin@,
    {
        Instant { since_origin }
    }

    /// The time from `earlier` to `self`, or `None` when `earlier` is the later of the two.
    pub fn checked_duration_since(&self, earlier: Instant) -> (r: Option<Duration>)
        ensures
            r is Some <==> earlier@ <= self@,
            r matches Some(d) ==> d@ == self@ - earlier@,
    {
        self.since_origin.checked_sub(earlier.since_origin)
    }

    /// The time from `earlier` to `self`, zero when `earlier` is the later of the two.
    pub fn saturating_duration_since(&self, earlier: Instant) -> (r: Duration)
        ensures
            r@ == if earlier@ <= self@ {
                self@ - earlier@
            } else {
                0
            },
    {
        match self.checked_duration_since(earlier) {
            Some(d) => d,
            None => Duration::zero(),
        }
    }

    /// The point `d` after this one, or `None` past the end of the clock's range.
    pub fn checked_add(&self, d: Duration) -> (r: Option<Instant>)
        ensures
            r is Some <==> self@ + d@ <= MAX_NANOS,
            r matches Some(t) ==> t@ == self@ + d@,
    {
        let a: u128 = self.since_origin.as_nanos();
        let b: u128 = d.as_nanos();
        if a + b <= MAX_NANOS {
            Some(Instant { since_origin: Duration { nanos: a + b } })
        } else {
            None
        }
    }
}

} // verus!
