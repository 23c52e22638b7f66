//! What every congestion controller offers, and what the controllers of this crate share.
//!
//! A controller works in two halves. The decisions are made here: whether a feedback counts,
//! which way the rate has to go, how far it may go. The estimates themselves are floating-point
//! numbers that the owner of the controller keeps and hands in where a decision depends on them.
use vstd::prelude::*;

use crate::bitrate::Bitrate;
use crate::stats::TransportStats;
use crate::time::{Duration, Instant, NANOS_PER_MICRO, NANOS_PER_MILLI, NANOS_PER_SEC};

verus! {

/// Feedback that follows the previous one by less than this is skipped, in milliseconds.
pub const MIN_UPDATE_INTERVAL_MS: u64 = 1;

/// Silence longer than this restarts a controller, in seconds.
pub const MAX_UPDATE_INTERVAL_SECS: u64 = 30;

/// Bytes of the packet that pacing is computed for.
pub const PACING_PACKET_BYTES: u64 = 1_460;

/// The seam between a congestion controller and the pacer.
pub trait CongestionController: Send {
    /// Take in one feedback report, received at `now`.
    fn on_feedback(&mut self, fb: &TransportStats, now: Instant);

    /// The rate to send at.
    fn target_bitrate(&self) -> Bitrate;

    /// The gap to leave between two packets.
    fn pacing_interval(&self) -> Duration;
}

/// What becomes of a feedback that arrives at `now`.
#[derive(Debug, Clone, Copy, PartialEq, Eq, Structural)]
pub enum Gate {
    /// It is dropped: the clock went backwards, or the previous feedback is too recent.
    Ignore,
    /// It ends a long silence: the controller starts over, and the feedback is not used.
    Restart,
    /// It is used.
    Proceed,
}

/// What becomes of a feedback at `now` when the previous one counted at `last`.
pub open spec fn gate_of(last: Option<Instant>, now: Instant) -> Gate {
    match last {
        None => Gate::Proceed,
        Some(then) => if now@ < then@ + MIN_UPDATE_INTERVAL_MS * NANOS_PER_MILLI {
            Gate::Ignore
        } else if now@ > then@ + MAX_UPDATE_INTERVAL_SECS * NANOS_PER_SEC {
            Gate::Restart
        } else {
            Gate::Proceed
        },
    }
}

/// Decide what becomes of a feedback at `now`.
pub fn gate(last: Option<Instant>, now: Instant) -> (r: Gate)
    ensures
        r == gate_of(last, now),
{
    match last {
        None => Gate::Proceed,
        Some(then) => match now.checked_duration_since(then) {
            None => Gate::Ignore,
            Some(d) => {
                if d < Duration::from_millis(MIN_UPDATE_INTERVAL_MS) {
                    Gate::Ignore
                } else if d > Duration::from_secs(MAX_UPDATE_INTERVAL_SECS) {
                    Gate::Restart
                } else {
                    Gate::Proceed
                }
            },
        },
    }
}

/// Feedback from before the last one is ignored: a clock that goes backwards does no harm.
pub proof fn law_backward_clock_is_ignored(last: Instant, now: Instant)
    requires
        now@ < last@,
    ensures
        gate_of(Some(last), now) == Gate::Ignore,
{
}

/// A decrease at `now` comes too soon after the one at `last`: within the smoothed round trip
/// `srtt`, of which at least 100 microseconds count.
pub open spec fn decrease_too_soon(last: Option<Instant>, now: Instant, srtt: Duration) -> bool {
    let window = if srtt@ < crate::stats::MIN_RTT_US * NANOS_PER_MICRO {
        (crate::stats::MIN_RTT_US * NANOS_PER_MICRO) as nat
    } else {
        srtt@
    };
    last matches Some(then) && now@ < then@ + window
}

/// Whether a decrease at `now` comes too soon after the one at `last`.
pub fn decrease_suppressed(last: Option<Instant>, now: Instant, srtt: Duration) -> (r: bool)
    ensures
        r == decrease_too_soon(last, now, srtt),
{
    match last {
        None => false,
        Some(then) => {
            let window = srtt.max(Duration::from_micros(crate::stats::MIN_RTT_US));
            now.saturating_duration_since(then) < window
        },
    }
}

/// The round-trip sample that a feedback carries, restricted to what is believed. A round trip
/// of zero is no sample.
pub fn rtt_sample(fb: &TransportStats) -> (r: Option<Duration>)
    ensures
        r is Some <==> fb.rtt@ > 0,
        r matches Some(d) ==> d@ == crate::stats::rtt_within(fb.rtt@),
{
    if fb.rtt > Duration::zero() {
        Some(crate::stats::clamp_rtt(fb.rtt))
    } else {
        None
    }
}

/// Microseconds between two packets of [`PACING_PACKET_BYTES`] at `bps` bits per second, rounded
/// down, and at least one.
pub open spec fn pacing_micros(bps: u64) -> int {
    let whole = PACING_PACKET_BYTES * 8 * 1_000_000 / (bps as int);
    if bps == 0 || whole < 1 {
        1
    } else {
        whole
    }
}

/// The gap between two packets at the given rate: the bits of a pacing packet over the rate, to
/// the microsecond, and never below one microsecond.
pub fn pacing_interval_of(rate: Bitrate) -> (r: Duration)
    ensures
        r@ == pacing_micros(rate.0) * NANOS_PER_MICRO,
        r@ >= NANOS_PER_MICRO,
{
    let bits: u64 = PACING_PACKET_BYTES * 8 * 1_000_000;
    if rate.0 == 0 {
        return Duration::from_micros(1);
    }
    let micros: u64 = bits / rate.0;
    if micros < 1 {
        Duration::from_micros(1)
    } else {
        Duration::from_micros(micros)
    }
}

/// A feedback counts when it is the first, or comes one millisecond to thirty seconds after the
/// last that counted. One that comes sooner is ignored, and one that comes later starts over.
pub proof fn law_feedback_counts_in_its_window(last: Option<Instant>, now: Instant)
    ensures
        last is None ==> gate_of(last, now) is Proceed,
        last matches Some(then) ==> {
            &&& gate_of(last, now) is Ignore <==> now@ < then@ + 1_000_000
            &&& gate_of(last, now) is Restart <==> now@ > then@ + 30_000_000_000
            &&& gate_of(last, now) is Proceed <==> then@ + 1_000_000 <= now@ <= then@
                + 30_000_000_000
        },
{
}

/// A decrease comes too soon exactly when less than a round trip has passed since the last one,
/// where a round trip is at least 100 microseconds. The first one never does.
pub proof fn law_one_decrease_per_round_trip(last: Option<Instant>, now: Instant, srtt: Duration)
    ensures
        last is None ==> !decrease_too_soon(last, now, srtt),
        last matches Some(then) ==> (decrease_too_soon(last, now, srtt) <==> now@ < then@ + srtt@
            || now@ < then@ + 100_000),
{
}

/// The gap between two packets is as long as a packet of 1460 bytes takes at the rate, to the
/// microsecond below, and never less than a microsecond.
pub proof fn law_pacing_fills_the_rate(bps: u64)
    requires
        bps > 0,
    ensures
        bps <= 11_680_000_000 ==> pacing_micros(bps) * bps <= 1_460 * 8 * 1_000_000 < (
        pacing_micros(bps) + 1) * bps,
        bps > 11_680_000_000 ==> pacing_micros(bps) == 1,
        pacing_micros(bps) >= 1,
        pacing_micros(0) == 1,
{
    let bits = 11_680_000_000int;
    let n = bits / (bps as int);
    vstd::arithmetic::div_mod::lemma_fundamental_div_mod(bits, bps as int);
    vstd::arithmetic::div_mod::lemma_mod_bound(bits, bps as int);
    assert(n * bps == bps * n) by (nonlinear_arith);
    assert((n + 1) * bps == bps * n + bps) by (nonlinear_arith);
    if bps <= bits {
        assert(n >= 1) by (nonlinear_arith)
            requires
                bits < (n + 1) * bps,
                bps <= bits,
                bps > 0,
        ;
    } else {
        assert(n < 1) by (nonlinear_arith)
            requires
                n * bps <= bits,
                bps > bits,
                bits > 0,
        ;
    }
}

} // verus!
