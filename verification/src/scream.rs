//! Window-based congestion control for the native path, after SCReAM (RFC 8298).
//!
//! The window grows while the queue stays short and is cut back when the queue delay reaches
//! 20 ms or the loss reaches two percent, at most once per round trip. The window, its threshold
//! and the smoothed round trip are floating-point numbers kept by the owner:
//! [`ScreamController::react`] says what to do with the window, [`ScreamController::graduate`]
//! whether slow start is over, [`ScreamController::settle`] takes the resulting rate.
use vstd::prelude::*;

use crate::binary64::Binary64;
use crate::bitrate::Bitrate;
use crate::controller::{decrease_suppressed, gate, pacing_interval_of, Gate};
use crate::stats::{clamp_duration, TransportStats, MAX_QUEUE_DELAY_SECS};
use crate::time::{Duration, Instant, NANOS_PER_MILLI};

verus! {

/// Queue delay from which on the path is congested, in milliseconds.
pub const QUEUE_DELAY_HIGH_THRESHOLD_MS: u64 = 20;

/// Queue delay above which slow start ends, in milliseconds.
pub const QUEUE_DELAY_TARGET_MS: u64 = 10;

/// Loss from which on the path is congested, in percent.
pub const LOSS_THRESHOLD_PERCENT: u8 = 2;

/// Phase of the controller.
#[derive(Debug, Clone, Copy, PartialEq, Eq, Structural)]
pub enum Phase {
    /// The window grows with every acknowledged byte.
    SlowStart,
    /// The window grows by about one packet per round trip.
    SteadyState,
}

/// Configuration of a [`ScreamController`]. Both bitrate bounds are inclusive.
#[derive(Debug, Clone, Copy, PartialEq, Eq, Structural)]
pub struct ScreamConfig {
    /// Least target.
    pub min_bitrate: Bitrate,
    /// Greatest target.
    pub max_bitrate: Bitrate,
    /// Target before the first feedback.
    pub initial_bitrate: Bitrate,
    /// Round trip assumed before the first sample.
    pub initial_rtt: Duration,
}

impl Default for ScreamConfig {
    fn default() -> (r: Self)
        ensures
            r.min_bitrate == Bitrate(100_000),
            r.max_bitrate == Bitrate(50_000_000),
            r.initial_bitrate == Bitrate(2_000_000),
            r.initial_rtt@ == 50 * NANOS_PER_MILLI,
    {
        ScreamConfig {
            min_bitrate: Bitrate::from_kbps(100),
            max_bitrate: Bitrate::from_mbps(50),
            initial_bitrate: Bitrate::from_mbps(2),
            initial_rtt: Duration::from_millis(50),
        }
    }
}

impl ScreamConfig {
    /// `rate` restricted to the configured bounds.
    pub open spec fn bounded(self, rate: Bitrate) -> Bitrate {
        Bitrate(crate::bitrate::clamped(rate.0, self.min_bitrate.0, self.max_bitrate.0))
    }
}

/// What to do with the window.
#[derive(Debug, Clone, Copy, PartialEq, Eq, Structural)]
pub enum WindowStep {
    /// Leave it.
    Keep,
    /// Set the slow-start threshold and the window to 0.85 of the window.
    BackOff,
    /// Add eight times the acknowledged bytes.
    SlowStart {
        /// Acknowledged bytes.
        acked: u32,
    },
    /// Add a packet times the acknowledged share of the window, and a packet at least.
    Additive {
        /// Acknowledged bytes.
        acked: u32,
    },
}

/// Abstract state of the controller.
pub struct ScreamView {
    /// Its configuration.
    pub config: ScreamConfig,
    /// Its phase.
    pub phase: Phase,
    /// When the last feedback counted.
    pub last_feedback: Option<Instant>,
    /// When the window was last cut back.
    pub last_decrease: Option<Instant>,
    /// The rate to send at.
    pub target: Bitrate,
}

/// The state of a new controller.
pub open spec fn started(config: ScreamConfig) -> ScreamView {
    ScreamView {
        config,
        phase: Phase::SlowStart,
        last_feedback: None,
        last_decrease: None,
        target: config.bounded(config.initial_bitrate),
    }
}

/// The feedback shows congestion.
pub open spec fn congested(fb: TransportStats) -> bool {
    fb.queue_delay@ >= QUEUE_DELAY_HIGH_THRESHOLD_MS * NANOS_PER_MILLI || fb.loss_reaches(
        LOSS_THRESHOLD_PERCENT as int,
    )
}

/// A controller in state `before` reacts to `fb` at `now` with `r`, and is then in `after`.
pub open spec fn reacts(
    before: ScreamView,
    fb: TransportStats,
    now: Instant,
    srtt: Duration,
    r: WindowStep,
    after: ScreamView,
) -> bool {
    if !congested(fb) {
        &&& after == before
        &&& r == match before.phase {
            Phase::SlowStart => WindowStep::SlowStart { acked: fb.bytes_acked },
            Phase::SteadyState => if fb.bytes_acked > 0 {
                WindowStep::Additive { acked: fb.bytes_acked }
            } else {
                WindowStep::Keep
            },
        }
    } else if crate::controller::decrease_too_soon(before.last_decrease, now, srtt) {
        r is Keep && after == before
    } else {
        &&& r is BackOff
        &&& after == (ScreamView {
            phase: Phase::SteadyState,
            last_decrease: Some(now),
            ..before
        })
    }
}

/// The rate that a window over a round trip, in bits per second, stands for: the least rate
/// where it is not a finite non-negative number.
pub open spec fn rate_of(config: ScreamConfig, raw_bps: Binary64) -> Bitrate {
    if raw_bps.nan() || raw_bps.rank() < 0 || raw_bps.rank() >= crate::binary64::INFINITY_BITS {
        config.min_bitrate
    } else {
        Bitrate(crate::bitrate::saturated(raw_bps.whole_part() as int))
    }
}

/// The controller once a feedback at `now` was ignored, counted, or made it start over.
pub open spec fn opened(before: ScreamView, verdict: Gate, now: Instant) -> ScreamView {
    match verdict {
        Gate::Ignore => before,
        Gate::Restart => ScreamView {
            phase: Phase::SlowStart,
            last_feedback: Some(now),
            last_decrease: None,
            ..before
        },
        Gate::Proceed => ScreamView { last_feedback: Some(now), ..before },
    }
}

/// The controller after the window grew to `cwnd` in slow start.
pub open spec fn graduated(
    before: ScreamView,
    fb: TransportStats,
    cwnd: Binary64,
    ssthresh: Binary64,
) -> ScreamView {
    ScreamView {
        phase: if ssthresh.at_most(cwnd) || fb.queue_delay@ > QUEUE_DELAY_TARGET_MS
            * NANOS_PER_MILLI {
            Phase::SteadyState
        } else {
            before.phase
        },
        ..before
    }
}

/// The controller once it has settled on a rate.
pub open spec fn settled(before: ScreamView, raw_bps: Binary64) -> ScreamView {
    ScreamView { target: before.config.bounded(rate_of(before.config, raw_bps)), ..before }
}

/// Window-based congestion controller.
#[derive(Debug)]
pub struct ScreamController {
    config: ScreamConfig,
    phase: Phase,
    last_feedback_time: Option<Instant>,
    last_decrease_time: Option<Instant>,
    target_bitrate: Bitrate,
}

impl View for ScreamController {
    type V = ScreamView;

    closed spec fn view(&self) -> ScreamView {
        ScreamView {
            config: self.config,
            phase: self.phase,
            last_feedback: self.last_feedback_time,
            last_decrease: self.last_decrease_time,
            target: self.target_bitrate,
        }
    }
}

impl ScreamController {
    #[verifier::type_invariant]
    spec fn in_bounds(self) -> bool {
        self.config.min_bitrate.0 <= self.config.max_bitrate.0 ==> self.config.min_bitrate.0
            <= self.target_bitrate.0 <= self.config.max_bitrate.0
    }

    /// A controller in slow start, at the initial bitrate kept within bounds.
    pub fn new(config: ScreamConfig) -> (r: Self)
        ensures
            r@ == started(config),
    {
        ScreamController {
            config,
            phase: Phase::SlowStart,
            last_feedback_time: None,
            last_decrease_time: None,
            target_bitrate: config.initial_bitrate.clamp(config.min_bitrate, config.max_bitrate),
        }
    }

    /// A controller with the default configuration.
    pub fn with_defaults() -> (r: Self)
        ensures
            r@ == started(r@.config),
            r@.config.min_bitrate == Bitrate(100_000),
            r@.config.max_bitrate == Bitrate(50_000_000),
            r@.config.initial_bitrate == Bitrate(2_000_000),
            r@.config.initial_rtt@ == 50 * NANOS_PER_MILLI,
    {
        ScreamController::new(ScreamConfig::default())
    }

    /// The configuration.
    pub fn config(&self) -> (r: ScreamConfig)
        ensures
            r == self@.config,
    {
        self.config
    }

    /// First step of a feedback: decide what becomes of it. After a restart the owner starts its
    /// window, threshold and smoothed round trip over and settles on the rate they give.
    pub fn open_feedback(&mut self, now: Instant) -> (r: Gate)
        ensures
            r == crate::controller::gate_of(old(self)@.last_feedback, now),
            final(self)@ == opened(old(self)@, r, now),
    {
        proof {
            use_type_invariant(&*self);
        }
        let verdict = gate(self.last_feedback_time, now);
        match verdict {
            Gate::Ignore => {},
            Gate::Restart => {
                self.phase = Phase::SlowStart;
                self.last_decrease_time = None;
                self.last_feedback_time = Some(now);
            },
            Gate::Proceed => {
                self.last_feedback_time = Some(now);
            },
        }
        verdict
    }

    /// Second step of a feedback that counts: decide what to do with the window. `srtt` is the
    /// smoothed round trip with this feedback taken in.
    pub fn react(&mut self, fb: &TransportStats, now: Instant, srtt: Duration) -> (r: WindowStep)
        ensures
            reacts(old(self)@, *fb, now, srtt, r, final(self)@),
    {
        proof {
            use_type_invariant(&*self);
        }
        let queue_delay = clamp_duration(
            fb.queue_delay,
            Duration::from_secs(MAX_QUEUE_DELAY_SECS),
        );
        let is_congested = queue_delay >= Duration::from_millis(QUEUE_DELAY_HIGH_THRESHOLD_MS)
            || fb.reaches_loss(LOSS_THRESHOLD_PERCENT);
        if is_congested {
            if decrease_suppressed(self.last_decrease_time, now, srtt) {
                WindowStep::Keep
            } else {
                self.last_decrease_time = Some(now);
                self.phase = Phase::SteadyState;
                WindowStep::BackOff
            }
        } else {
            match self.phase {
                Phase::SlowStart => WindowStep::SlowStart { acked: fb.bytes_acked },
                Phase::SteadyState => {
                    if fb.bytes_acked > 0 {
                        WindowStep::Additive { acked: fb.bytes_acked }
                    } else {
                        WindowStep::Keep
                    }
                },
            }
        }
    }

    /// After the window grew in slow start: slow start ends when the window has reached its
    /// threshold or the queue is building up.
    pub fn graduate(&mut self, fb: &TransportStats, cwnd: Binary64, ssthresh: Binary64)
        ensures
            final(self)@ == graduated(old(self)@, *fb, cwnd, ssthresh),
    {
        proof {
            use_type_invariant(&*self);
        }
        let queue_delay = clamp_duration(
            fb.queue_delay,
            Duration::from_secs(MAX_QUEUE_DELAY_SECS),
        );
        if ssthresh.le(cwnd) || queue_delay > Duration::from_millis(QUEUE_DELAY_TARGET_MS) {
            self.phase = Phase::SteadyState;
        }
    }

    /// Take the rate that the window gives as the target, kept within bounds.
    pub fn settle(&mut self, raw_bps: Binary64)
        ensures
            final(self)@ == settled(old(self)@, raw_bps),
    {
        let rate = if raw_bps.is_nan() || raw_bps.lt(Binary64::zero()) || !raw_bps.lt(
            Binary64::from_bits(crate::binary64::INFINITY_BITS),
        ) {
            self.config.min_bitrate
        } else {
            Bitrate::from_bps_f64(raw_bps)
        };
        *self = ScreamController {
            config: self.config,
            phase: self.phase,
            last_feedback_time: self.last_feedback_time,
            last_decrease_time: self.last_decrease_time,
            target_bitrate: rate.clamp(self.config.min_bitrate, self.config.max_bitrate),
        };
    }

    /// The rate to send at. It never leaves the configured bounds.
    pub fn target_bitrate(&self) -> (r: Bitrate)
        ensures
            r == self@.target,
            self@.config.min_bitrate.0 <= self@.config.max_bitrate.0
                ==> self@.config.min_bitrate.0 <= r.0 <= self@.config.max_bitrate.0,
    {
        proof {
            use_type_invariant(self);
        }
        self.target_bitrate
    }

    /// The gap to leave between two packets.
    pub fn pacing_interval(&self) -> (r: Duration)
        ensures
            r@ == crate::controller::pacing_micros(self@.target.0)
                * crate::time::NANOS_PER_MICRO,
            r@ >= crate::time::NANOS_PER_MICRO,
    {
        pacing_interval_of(self.target_bitrate)
    }
}

/// The window is cut back at most once per smoothed round trip.
pub proof fn law_one_back_off_per_round_trip(
    before: ScreamView,
    fb: TransportStats,
    now: Instant,
    srtt: Duration,
    r: WindowStep,
    after: ScreamView,
)
    requires
        reacts(before, fb, now, srtt, r, after),
        r is BackOff,
    ensures
        before.last_decrease matches Some(then) ==> now@ >= then@ + srtt@,
        after.last_decrease == Some(now),
{
}

/// A congested path never lets the window grow, and ends slow start with the first cut.
pub proof fn law_congestion_never_grows(
    before: ScreamView,
    fb: TransportStats,
    now: Instant,
    srtt: Duration,
    r: WindowStep,
    after: ScreamView,
)
    requires
        reacts(before, fb, now, srtt, r, after),
        congested(fb),
    ensures
        r is BackOff || r is Keep,
        r is BackOff ==> after.phase is SteadyState,
        before.last_decrease is None ==> r is BackOff,
{
}

/// In the steady state, feedback that acknowledges nothing does not grow the window.
pub proof fn law_nothing_acked_nothing_grown(
    before: ScreamView,
    fb: TransportStats,
    now: Instant,
    srtt: Duration,
    r: WindowStep,
    after: ScreamView,
)
    requires
        reacts(before, fb, now, srtt, r, after),
        before.phase is SteadyState,
        fb.bytes_acked == 0,
    ensures
        r is BackOff || r is Keep,
{
}

/// Whatever rate is settled on, the target stays within the configured bounds.
pub proof fn law_target_stays_in_bounds(config: ScreamConfig, rate: Bitrate)
    requires
        config.min_bitrate.0 <= config.max_bitrate.0,
    ensures
        config.min_bitrate.0 <= config.bounded(rate).0 <= config.max_bitrate.0,
{
}

/// The window is cut back exactly when the path is congested and a round trip of at least 100
/// microseconds has passed since the last cut. The path is congested when the queue delay is 20 ms
/// or more, or a fiftieth or more was lost: of the packets where the report gives their fraction,
/// else of the acknowledged bytes.
pub proof fn law_congestion_cuts_the_window(
    before: ScreamView,
    fb: TransportStats,
    now: Instant,
    srtt: Duration,
    r: WindowStep,
    after: ScreamView,
)
    requires
        reacts(before, fb, now, srtt, r, after),
    ensures
        ({
            let lossy = if fb.loss_fraction_q8 > 0 {
                fb.loss_fraction_q8 * 50 >= 256
            } else if fb.bytes_acked > 0 {
                fb.bytes_lost * 50 >= fb.bytes_acked
            } else {
                fb.bytes_lost > 0
            };
            let bad = fb.queue_delay@ >= 20_000_000 || lossy;
            &&& r is BackOff <==> bad && (before.last_decrease matches Some(then) ==> now@ >= then@
                + srtt@ && now@ >= then@ + 100_000)
            &&& r is SlowStart <==> !bad && before.phase is SlowStart
            &&& r is Additive <==> !bad && before.phase is SteadyState && fb.bytes_acked > 0
        }),
        after.phase == (if r is BackOff {
            Phase::SteadyState
        } else {
            before.phase
        }),
        after.last_decrease == (if r is BackOff {
            Some(now)
        } else {
            before.last_decrease
        }),
        after.config == before.config,
        after.target == before.target,
        after.last_feedback == before.last_feedback,
{
}

/// The window grows by what was acknowledged, no more and no less.
pub proof fn law_window_grows_by_what_was_acked(
    before: ScreamView,
    fb: TransportStats,
    now: Instant,
    srtt: Duration,
    r: WindowStep,
    after: ScreamView,
)
    requires
        reacts(before, fb, now, srtt, r, after),
    ensures
        r matches WindowStep::SlowStart { acked } ==> acked == fb.bytes_acked,
        r matches WindowStep::Additive { acked } ==> acked == fb.bytes_acked,
{
}

/// Slow start ends once the window is no longer below its threshold or the queue delay is above
/// 10 ms, and it never comes back that way. Nothing else changes.
pub proof fn law_slow_start_ends(
    before: ScreamView,
    fb: TransportStats,
    cwnd: Binary64,
    ssthresh: Binary64,
)
    ensures
        ({
            let after = graduated(before, fb, cwnd, ssthresh);
            &&& after.phase is SteadyState <==> before.phase is SteadyState || fb.queue_delay@
                > 10_000_000 || ssthresh.at_most(cwnd)
            &&& after.config == before.config && after.target == before.target
            &&& after.last_feedback == before.last_feedback
            &&& after.last_decrease == before.last_decrease
        }),
{
}

/// A feedback that is ignored changes nothing. One that counts is noted and changes nothing else.
/// One that ends a long silence is noted too, and the controller is back in slow start.
pub proof fn law_silence_starts_over(before: ScreamView, verdict: Gate, now: Instant)
    ensures
        ({
            let after = opened(before, verdict, now);
            &&& after.config == before.config && after.target == before.target
            &&& verdict is Ignore ==> after == before
            &&& !(verdict is Ignore) ==> after.last_feedback == Some(now)
            &&& verdict is Proceed ==> after.phase == before.phase && after.last_decrease
                == before.last_decrease
            &&& verdict is Restart ==> after.phase is SlowStart && after.last_decrease is None
        }),
{
}

/// A new controller is in slow start at the initial bitrate, kept within the bounds, and has seen
/// nothing.
pub proof fn law_new_controller_starts_slowly(config: ScreamConfig)
    ensures
        started(config).config == config,
        started(config).phase is SlowStart,
        started(config).last_feedback is None,
        started(config).last_decrease is None,
        config.min_bitrate.0 <= config.initial_bitrate.0 <= config.max_bitrate.0
            ==> started(config).target == config.initial_bitrate,
        config.initial_bitrate.0 < config.min_bitrate.0 ==> started(config).target
            == config.min_bitrate,
        config.min_bitrate.0 <= config.max_bitrate.0 < config.initial_bitrate.0
            ==> started(config).target == config.max_bitrate,
        config.min_bitrate.0 > config.max_bitrate.0 ==> started(config).target
            == config.min_bitrate,
{
}

/// The target is the whole part of the rate where that lies within the bounds, and else the bound
/// that it lies beyond. What is no finite number from zero on counts as the least rate.
pub proof fn law_target_is_the_rate(before: ScreamView, raw_bps: Binary64)
    ensures
        ({
            let after = settled(before, raw_bps);
            let (min, max) = (before.config.min_bitrate.0, before.config.max_bitrate.0);
            let number = raw_bps.bits < 0x7FF0_0000_0000_0000 || raw_bps.bits
                == 0x8000_0000_0000_0000;
            &&& after.config == before.config && after.phase == before.phase
            &&& after.last_feedback == before.last_feedback
            &&& after.last_decrease == before.last_decrease
            &&& !number || min > max ==> after.target.0 == min
            &&& number && min <= raw_bps.whole_part() <= max ==> after.target.0
                == raw_bps.whole_part()
            &&& number && raw_bps.whole_part() < min ==> after.target.0 == min
            &&& number && min <= max && raw_bps.whole_part() > max ==> after.target.0 == max
        }),
{
}

} // verus!
