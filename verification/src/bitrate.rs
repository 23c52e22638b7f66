//! A strongly-typed bits-per-second newtype.
//!
//! All values are unsigned bits per second. One kilobit per second is 1 000 bps and one megabit
//! per second is 1 000 000 bps.
use core::cmp::Ordering;
use core::ops::{Add, Sub};
use vstd::prelude::*;
use vstd::std_specs::cmp::PartialOrdSpecImpl;
use vstd::std_specs::ops::{AddSpecImpl, SubSpecImpl};

use crate::binary64::Binary64;
use crate::text::push_decimal;

verus! {

/// A network bitrate measured in bits per second.
#[derive(Debug, Clone, Copy, PartialEq, Eq, Ord, Hash, Structural)]
pub struct Bitrate(pub u64);

/// `n` capped at the largest representable rate.
pub open spec fn saturated(n: int) -> u64 {
    if n > u64::MAX {
        u64::MAX
    } else if n < 0 {
        0
    } else {
        n as u64
    }
}

/// `v` restricted to `[min, max]`; `min` wins when the interval is empty.
pub open spec fn clamped(v: u64, min: u64, max: u64) -> u64 {
    if min > max || v < min {
        min
    } else if v > max {
        max
    } else {
        v
    }
}

/// How a rate is written: whole Mbps from 1 Mbps on, whole kbps from 1 kbps on, bps below.
pub open spec fn rate_text(bps: u64) -> Seq<char> {
    if bps >= 1_000_000 {
        crate::text::decimal((bps / 1_000_000) as nat) + " Mbps"@
    } else if bps >= 1_000 {
        crate::text::decimal((bps / 1_000) as nat) + " kbps"@
    } else {
        crate::text::decimal(bps as nat) + " bps"@
    }
}

impl Bitrate {
    /// Zero bits per second (link idle, or not yet estimated).
    pub fn zero() -> (r: Self)
        ensures
            r == Bitrate(0),
    {
        Bitrate(0)
    }

    /// Construct from a raw bits-per-second value.
    pub fn from_bps(bps: u64) -> (r: Self)
        ensures
            r == Bitrate(bps),
    {
        Bitrate(bps)
    }

    /// Construct from kilobits per second, saturating at `u64::MAX` bps.
    pub fn from_kbps(kbps: u64) -> (r: Self)
        ensures
            r == Bitrate(saturated(kbps * 1_000)),
    {
        match kbps.checked_mul(1_000) {
            Some(bps) => Bitrate(bps),
            None => Bitrate(u64::MAX),
        }
    }

    /// Construct from megabits per second, saturating at `u64::MAX` bps.
    pub fn from_mbps(mbps: u64) -> (r: Self)
        ensures
            r == Bitrate(saturated(mbps * 1_000_000)),
    {
        match mbps.checked_mul(1_000_000) {
            Some(bps) => Bitrate(bps),
            None => Bitrate(u64::MAX),
        }
    }

    /// Construct from a floating-point bits-per-second value, dropping the fraction: zero for a
    /// NaN or a negative value, `u64::MAX` for one too large.
    pub fn from_bps_f64(bps: Binary64) -> (r: Self)
        ensures
            r == Bitrate(
                if bps.nan() || bps.rank() < 0 {
                    0
                } else {
                    saturated(bps.whole_part() as int)
                },
            ),
    {
        Bitrate(bps.truncate())
    }

    /// The raw bits-per-second value.
    pub fn as_bps(self) -> (r: u64)
        ensures
            r == self.0,
    {
        self.0
    }

    /// The value in whole kilobits per second, rounded down.
    pub fn as_kbps(self) -> (r: u64)
        ensures
            r == self.0 / 1_000,
    {
        self.0 / 1_000
    }

    /// The value in whole megabits per second, rounded down.
    pub fn as_mbps(self) -> (r: u64)
        ensures
            r == self.0 / 1_000_000,
    {
        self.0 / 1_000_000
    }

    /// Clamp `self` to `[min, max]`. If `min > max` this gives `min`.
    pub fn clamp(self, min: Self, max: Self) -> (r: Self)
        ensures
            r == Bitrate(clamped(self.0, min.0, max.0)),
    {
        if min.0 > max.0 || self.0 < min.0 {
            min
        } else if self.0 > max.0 {
            max
        } else {
            self
        }
    }

    /// Saturating addition.
    pub fn saturating_add(self, rhs: Self) -> (r: Self)
        ensures
            r == Bitrate(saturated(self.0 + rhs.0)),
    {
        Bitrate(self.0.saturating_add(rhs.0))
    }

    /// Saturating subtraction (floors at zero).
    pub fn saturating_sub(self, rhs: Self) -> (r: Self)
        ensures
            r == Bitrate(saturated(self.0 - rhs.0)),
    {
        Bitrate(self.0.saturating_sub(rhs.0))
    }

    /// The rate as text, in the largest unit of which it holds at least one.
    pub fn to_text(&self) -> (s: String)
        ensures
            s@ == rate_text(self.0),
    {
        let mut s = String::new();
        if self.0 >= 1_000_000 {
            push_decimal(&mut s, self.0 / 1_000_000);
            s.append(" Mbps");
        } else if self.0 >= 1_000 {
            push_decimal(&mut s, self.0 / 1_000);
            s.append(" kbps");
        } else {
            push_decimal(&mut s, self.0);
            s.append(" bps");
        }
        proof {
            assert(Seq::<char>::empty() + crate::text::decimal((self.0 / 1_000_000) as nat)
                =~= crate::text::decimal((self.0 / 1_000_000) as nat));
            assert(Seq::<char>::empty() + crate::text::decimal((self.0 / 1_000) as nat)
                =~= crate::text::decimal((self.0 / 1_000) as nat));
            assert(Seq::<char>::empty() + crate::text::decimal(self.0 as nat)
                =~= crate::text::decimal(self.0 as nat));
        }
        s
    }
}

impl Default for Bitrate {
    fn default() -> (r: Self)
        ensures
            r == Bitrate(0),
    {
        Bitrate(0)
    }
}

impl PartialOrd for Bitrate {
    fn partial_cmp(&self, other: &Self) -> (r: Option<Ordering>) {
        if self.0 < other.0 {
            Some(Ordering::Less)
        } else if self.0 > other.0 {
            Some(Ordering::Greater)
        } else {
            Some(Ordering::Equal)
        }
    }
}

impl PartialOrdSpecImpl for Bitrate {
    open spec fn obeys_partial_cmp_spec() -> bool {
        true
    }

    open spec fn partial_cmp_spec(&self, other: &Self) -> Option<Ordering> {
        if self.0 < other.0 {
            Some(Ordering::Less)
        } else if self.0 > other.0 {
            Some(Ordering::Greater)
        } else {
            Some(Ordering::Equal)
        }
    }
}

impl Add for Bitrate {
    type Output = Self;

    fn add(self, rhs: Self) -> (r: Self) {
        self.saturating_add(rhs)
    }
}

impl AddSpecImpl for Bitrate {
    open spec fn obeys_add_spec() -> bool {
        true
    }

    open spec fn add_req(self, rhs: Self) -> bool {
        true
    }

    open spec fn add_spec(self, rhs: Self) -> Self {
        Bitrate(saturated(self.0 + rhs.0))
    }
}

impl Sub for Bitrate {
    type Output = Self;

    fn sub(self, rhs: Self) -> (r: Self) {
        self.saturating_sub(rhs)
    }
}

impl SubSpecImpl for Bitrate {
    open spec fn obeys_sub_spec() -> bool {
        true
    }

    open spec fn sub_req(self, rhs: Self) -> bool {
        true
    }

    open spec fn sub_spec(self, rhs: Self) -> Self {
        Bitrate(saturated(self.0 - rhs.0))
    }
}

/// A rate between the bounds stays what it is, one outside becomes the bound that it lies beyond,
/// and where the bounds are crossed it is the lower one.
pub proof fn law_clamping_keeps_to_the_bounds(v: u64, min: u64, max: u64)
    ensures
        min <= v <= max ==> clamped(v, min, max) == v,
        v < min ==> clamped(v, min, max) == min,
        min <= max < v ==> clamped(v, min, max) == max,
        min > max ==> clamped(v, min, max) == min,
{
}

/// Every number of bits per second that fits is kept as it is; one too large is the largest rate,
/// and one below zero is zero.
pub proof fn law_saturation_keeps_what_fits(n: int)
    ensures
        0 <= n <= 0xFFFF_FFFF_FFFF_FFFF ==> saturated(n) == n,
        n > 0xFFFF_FFFF_FFFF_FFFF ==> saturated(n) == 0xFFFF_FFFF_FFFF_FFFF,
        n < 0 ==> saturated(n) == 0,
{
}

/// A rate is written in the largest unit that it reaches, in whole units rounded down.
pub proof fn law_rates_are_written_in_whole_units(bps: u64, k: u64)
    ensures
        bps >= 1_000_000 && k * 1_000_000 <= bps < (k + 1) * 1_000_000 ==> rate_text(bps)
            == crate::text::decimal(k as nat) + " Mbps"@,
        1_000 <= bps < 1_000_000 && k * 1_000 <= bps < (k + 1) * 1_000 ==> rate_text(bps)
            == crate::text::decimal(k as nat) + " kbps"@,
        bps < 1_000 ==> rate_text(bps) == crate::text::decimal(bps as nat) + " bps"@,
{
}

} // verus!
