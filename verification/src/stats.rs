//! Per-feedback transport statistics, and the bounds within which they are believed.
use vstd::prelude::*;

use crate::binary64::{Binary64, LEADING_BIT};
use crate::time::{Duration, NANOS_PER_MICRO, NANOS_PER_SEC};

verus! {

/// Shortest round trip that is believed, in microseconds.
pub const MIN_RTT_US: u64 = 100;

/// Longest round trip that is believed, in seconds.
pub const MAX_RTT_SECS: u64 = 10;

/// Longest queue delay that is believed, in seconds.
pub const MAX_QUEUE_DELAY_SECS: u64 = 2;

/// What the transport measured since the previous feedback.
#[derive(Debug, Clone, Copy, PartialEq, Eq, Structural)]
pub struct TransportStats {
    /// Round-trip time; zero when there is no sample.
    pub rtt: Duration,
    /// Queuing delay above the path's minimum.
    pub queue_delay: Duration,
    /// Payload bytes newly acknowledged.
    pub bytes_acked: u32,
    /// Payload bytes inferred lost.
    pub bytes_lost: u32,
    /// Packets lost, in 256ths; zero when the transport does not say.
    pub loss_fraction_q8: u8,
    /// Time since the previous feedback.
    pub interval: Duration,
}

impl Default for TransportStats {
    fn default() -> (r: Self)
        ensures
            r.rtt@ == 0,
            r.queue_delay@ == 0,
            r.bytes_acked == 0,
            r.bytes_lost == 0,
            r.loss_fraction_q8 == 0,
            r.interval@ == 0,
    {
        TransportStats {
            rtt: Duration::zero(),
            queue_delay: Duration::zero(),
            bytes_acked: 0,
            bytes_lost: 0,
            loss_fraction_q8: 0,
            interval: Duration::zero(),
        }
    }
}

impl TransportStats {
    /// The loss as a fraction, numerator and denominator: the packet fraction where the transport
    /// gives one, else bytes lost over bytes acknowledged, else no loss.
    pub open spec fn loss(self) -> (int, int) {
        if self.loss_fraction_q8 > 0 {
            (self.loss_fraction_q8 as int, 256)
        } else if self.bytes_acked == 0 {
            (self.bytes_lost as int, 1)
        } else {
            (self.bytes_lost as int, self.bytes_acked as int)
        }
    }

    /// The loss is greater than `percent` hundredths.
    pub open spec fn loss_exceeds(self, percent: int) -> bool {
        self.loss().0 * 100 > percent * self.loss().1
    }

    /// The loss is at least `percent` hundredths.
    pub open spec fn loss_reaches(self, percent: int) -> bool {
        self.loss().0 * 100 >= percent * self.loss().1
    }

    /// Numerator and denominator of the loss.
    fn loss_parts(&self) -> (r: (u64, u64))
        ensures
            r.0 == self.loss().0,
            r.1 == self.loss().1,
            r.0 <= u32::MAX,
            r.1 <= u32::MAX,
    {
        if self.loss_fraction_q8 > 0 {
            (self.loss_fraction_q8 as u64, 256)
        } else if self.bytes_acked == 0 {
            (self.bytes_lost as u64, 1)
        } else {
            (self.bytes_lost as u64, self.bytes_acked as u64)
        }
    }

    /// Whether the loss is greater than `percent` hundredths.
    pub fn exceeds_loss(&self, percent: u8) -> (r: bool)
        ensures
            r == self.loss_exceeds(percent as int),
    {
        let (lost, whole) = self.loss_parts();
        assert(percent * whole <= 255 * u32::MAX) by (nonlinear_arith)
            requires
                percent <= 255,
                whole <= u32::MAX,
        ;
        lost * 100 > (percent as u64) * whole
    }

    /// Whether the loss is at least `percent` hundredths.
    pub fn reaches_loss(&self, percent: u8) -> (r: bool)
        ensures
            r == self.loss_reaches(percent as int),
    {
        let (lost, whole) = self.loss_parts();
        assert(percent * whole <= 255 * u32::MAX) by (nonlinear_arith)
            requires
                percent <= 255,
                whole <= u32::MAX,
        ;
        lost * 100 >= (percent as u64) * whole
    }

    /// The packet loss fraction as a number: the 256ths divided by 256, exactly.
    pub fn loss_fraction(&self) -> (r: Binary64)
        ensures
            self.loss_fraction_q8 == 0 ==> r.bits == 0,
            self.loss_fraction_q8 > 0 ==> {
                &&& !r.nan() && r.rank() > 0
                &&& 0 < r.exponent() <= 1022
                &&& r.significand() * 256 == self.loss_fraction_q8
                    * vstd::arithmetic::power2::pow2((1075 - r.exponent()) as nat)
            },
    {
        let q: u64 = self.loss_fraction_q8 as u64;
        // `unit` is 2 to the power `52 - p`, where `p` is the position of the leading bit of `q`.
        let (p, unit): (u64, u64) = if q >= 128 {
            (7, 0x2000_0000_0000)
        } else if q >= 64 {
            (6, 0x4000_0000_0000)
        } else if q >= 32 {
            (5, 0x8000_0000_0000)
        } else if q >= 16 {
            (4, 0x1_0000_0000_0000)
        } else if q >= 8 {
            (3, 0x2_0000_0000_0000)
        } else if q >= 4 {
            (2, 0x4_0000_0000_0000)
        } else if q >= 2 {
            (1, 0x8_0000_0000_0000)
        } else if q >= 1 {
            (0, 0x10_0000_0000_0000)
        } else {
            return Binary64::zero();
        };
        assert(LEADING_BIT <= q * unit < 2 * LEADING_BIT);
        let r = Binary64::from_bits((1015 + p) * LEADING_BIT + (q * unit - LEADING_BIT));
        proof {
            let low = q * unit - LEADING_BIT;
            assert(r.magnitude() == (1015 + p) * LEADING_BIT + low);
            vstd::arithmetic::div_mod::lemma_fundamental_div_mod_converse(
                r.magnitude(),
                LEADING_BIT as int,
                1015 + p,
                low,
            );
            assert(r.exponent() == 1015 + p);
            assert(r.significand() == q * unit);
            vstd::arithmetic::power2::lemma2_to64_rest();
            vstd::arithmetic::power2::lemma2_to64();
            assert(vstd::arithmetic::power2::pow2((60 - p) as nat) == unit * 256);
            assert(q * unit * 256 == q * (unit * 256)) by (nonlinear_arith);
        }
        r
    }
}

/// The round trip restricted to what is believed, in nanoseconds.
pub open spec fn rtt_within(rtt: nat) -> nat {
    if rtt < MIN_RTT_US * NANOS_PER_MICRO {
        (MIN_RTT_US * NANOS_PER_MICRO) as nat
    } else if rtt > MAX_RTT_SECS * NANOS_PER_SEC {
        (MAX_RTT_SECS * NANOS_PER_SEC) as nat
    } else {
        rtt
    }
}

/// Restrict a round trip to 100 microseconds at least and 10 seconds at most.
pub fn clamp_rtt(rtt: Duration) -> (r: Duration)
    ensures
        r@ == rtt_within(rtt@),
{
    let low = Duration::from_micros(MIN_RTT_US);
    let high = Duration::from_secs(MAX_RTT_SECS);
    if rtt < low {
        low
    } else if rtt > high {
        high
    } else {
        rtt
    }
}

/// Restrict a span to at most `max`.
pub fn clamp_duration(d: Duration, max: Duration) -> (r: Duration)
    ensures
        r@ == if d@ > max@ {
            max@
        } else {
            d@
        },
{
    if d > max {
        max
    } else {
        d
    }
}

/// The loss of a report is its packet fraction, in 256ths, where it has one. Without one it is the
/// bytes lost over the bytes acknowledged, of which at least one counts.
pub proof fn law_loss_of_a_report(fb: TransportStats, percent: int)
    requires
        0 < percent <= 100,
    ensures
        fb.loss_fraction_q8 > 0 ==> (fb.loss_exceeds(percent) <==> fb.loss_fraction_q8 * 100
            > percent * 256),
        fb.loss_fraction_q8 > 0 ==> (fb.loss_reaches(percent) <==> fb.loss_fraction_q8 * 100
            >= percent * 256),
        fb.loss_fraction_q8 == 0 && fb.bytes_acked > 0 ==> (fb.loss_exceeds(percent)
            <==> fb.bytes_lost * 100 > percent * fb.bytes_acked),
        fb.loss_fraction_q8 == 0 && fb.bytes_acked > 0 ==> (fb.loss_reaches(percent)
            <==> fb.bytes_lost * 100 >= percent * fb.bytes_acked),
        fb.loss_fraction_q8 == 0 && fb.bytes_acked == 0 ==> (fb.loss_exceeds(percent)
            <==> fb.bytes_lost * 100 > percent),
        fb.loss_fraction_q8 == 0 && fb.bytes_acked == 0 ==> (fb.loss_reaches(percent)
            <==> fb.bytes_lost * 100 >= percent),
        fb.loss_fraction_q8 == 0 && fb.bytes_lost == 0 ==> !fb.loss_exceeds(percent)
            && !fb.loss_reaches(percent),
{
    if fb.bytes_acked > 0 {
        assert(percent * fb.bytes_acked > 0) by (nonlinear_arith)
            requires
                percent > 0,
                fb.bytes_acked > 0,
        ;
    }
}

/// A round trip from 100 microseconds to ten seconds is believed as it is; a shorter or longer one
/// counts as the nearer end.
pub proof fn law_believed_round_trips(rtt: nat)
    ensures
        100_000 <= rtt <= 10_000_000_000 ==> rtt_within(rtt) == rtt,
        rtt < 100_000 ==> rtt_within(rtt) == 100_000,
        rtt > 10_000_000_000 ==> rtt_within(rtt) == 10_000_000_000,
{
}

} // verus!
