//! Delay-based congestion control for the browser path, after Google Congestion Control.
//!
//! A queue delay above 25 ms means overuse and calls for a decrease; one below 10 ms lets the
//! controller step from Decrease to Hold and from Hold to Increase. Loss above ten percent caps
//! the target on top of that. The estimate is a floating-point number kept by the owner:
//! [`GccController::react`] says what to do with it, [`GccController::settle`] takes the result.
use vstd::prelude::*;

use crate::binary64::Binary64;
use crate::bitrate::Bitrate;
use crate::controller::{decrease_suppressed, gate, pacing_interval_of, Gate};
use crate::stats::{clamp_duration, TransportStats, MAX_QUEUE_DELAY_SECS};
use crate::time::{Duration, Instant, NANOS_PER_MILLI};

verus! {

/// Queue delay above which the path is overused, in milliseconds.
pub const OVERUSE_THRESHOLD_MS: u64 = 25;

/// Queue delay below which the path is underused, in milliseconds.
pub const UNDERUSE_THRESHOLD_MS: u64 = 10;

/// Loss above which the target is capped, in percent.
pub const LOSS_HIGH_PERCENT: u8 = 10;

/// Which way the delay-based controller is going.
#[derive(Debug, Clone, Copy, PartialEq, Eq, Structural)]
pub enum GccState {
    /// Waiting after a decrease.
    Hold,
    /// Growing toward the available capacity.
    Increase,
    /// Backing off.
    Decrease,
}

/// Configuration of a [`GccController`]. Both bitrate bounds are inclusive.
#[derive(Debug, Clone, Copy, PartialEq, Eq, Structural)]
pub struct GccConfig {
    /// Least target.
    pub min_bitrate: Bitrate,
    /// Greatest target.
    pub max_bitrate: Bitrate,
    /// Target before the first feedback.
    pub initial_bitrate: Bitrate,
    /// Round trip assumed before the first sample.
    pub initial_rtt: Duration,
}

impl Default for GccConfig {
    fn default() -> (r: Self)
        ensures
            r.min_bitrate == Bitrate(100_000),
            r.max_bitrate == Bitrate(50_000_000),
            r.initial_bitrate == Bitrate(2_000_000),
            r.initial_rtt@ == 50 * NANOS_PER_MILLI,
    {
        GccConfig {
            min_bitrate: Bitrate::from_kbps(100),
            max_bitrate: Bitrate::from_mbps(50),
            initial_bitrate: Bitrate::from_mbps(2),
            initial_rtt: Duration::from_millis(50),
        }
    }
}

impl GccConfig {
    /// `rate` restricted to the configured bounds.
    pub open spec fn bounded(self, rate: Bitrate) -> Bitrate {
        Bitrate(crate::bitrate::clamped(rate.0, self.min_bitrate.0, self.max_bitrate.0))
    }
}

/// What to do with the estimate.
#[derive(Debug, Clone, Copy, PartialEq, Eq, Structural)]
pub enum EstimateStep {
    /// Leave it.
    Keep,
    /// Multiply it by 0.85.
    BackOff,
    /// Multiply it by 1.08.
    GrowFast,
    /// Add 8 kbps.
    GrowSlow,
}

/// What follows from one feedback.
#[derive(Debug, Clone, Copy, PartialEq, Eq, Structural)]
pub struct GccReaction {
    /// What to do with the estimate.
    pub step: EstimateStep,
    /// Whether the target is the estimate times 0.85 rather than the estimate.
    pub cap_for_loss: bool,
}

/// Abstract state of the controller.
pub struct GccView {
    /// Its configuration.
    pub config: GccConfig,
    /// Which way it is going.
    pub state: GccState,
    /// When the last feedback counted.
    pub last_feedback: Option<Instant>,
    /// When it last backed off.
    pub last_decrease: Option<Instant>,
    /// The rate to send at.
    pub target: Bitrate,
}

/// The state of a new controller.
pub open spec fn started(config: GccConfig) -> GccView {
    GccView {
        config,
        state: GccState::Hold,
        last_feedback: None,
        last_decrease: None,
        target: config.bounded(config.initial_bitrate),
    }
}

/// Where a queue delay, in nanoseconds, leads from `state`.
pub open spec fn steered(state: GccState, queue_delay: nat) -> GccState {
    if queue_delay > OVERUSE_THRESHOLD_MS * NANOS_PER_MILLI {
        GccState::Decrease
    } else if queue_delay < UNDERUSE_THRESHOLD_MS * NANOS_PER_MILLI {
        match state {
            GccState::Decrease => GccState::Hold,
            GccState::Hold => GccState::Increase,
            GccState::Increase => GccState::Increase,
        }
    } else {
        state
    }
}

/// What is done with the estimate in `state`. It grows fast while it is below `near_cap`.
pub open spec fn step_in(
    state: GccState,
    too_soon: bool,
    estimate: Binary64,
    near_cap: Binary64,
) -> EstimateStep {
    match state {
        GccState::Decrease => if too_soon {
            EstimateStep::Keep
        } else {
            EstimateStep::BackOff
        },
        GccState::Hold => EstimateStep::Keep,
        GccState::Increase => if estimate.below(near_cap) {
            EstimateStep::GrowFast
        } else {
            EstimateStep::GrowSlow
        },
    }
}

/// A controller in state `before` reacts to `fb` at `now` with `r`, and is then in `after`.
pub open spec fn reacts(
    before: GccView,
    fb: TransportStats,
    now: Instant,
    srtt: Duration,
    estimate: Binary64,
    near_cap: Binary64,
    r: GccReaction,
    after: GccView,
) -> bool {
    let state = steered(before.state, fb.queue_delay@);
    let too_soon = crate::controller::decrease_too_soon(before.last_decrease, now, srtt);
    let step = step_in(state, too_soon, estimate, near_cap);
    &&& r == (GccReaction { step, cap_for_loss: fb.loss_exceeds(LOSS_HIGH_PERCENT as int) })
    &&& after == (GccView {
        state,
        last_decrease: if step is BackOff {
            Some(now)
        } else {
            before.last_decrease
        },
        ..before
    })
}

/// The rate that an estimate in bits per second stands for: the least rate where it is not a
/// finite non-negative number.
pub open spec fn rate_of(config: GccConfig, raw_bps: Binary64) -> Bitrate {
    if raw_bps.nan() || raw_bps.rank() < 0 || raw_bps.rank() >= crate::binary64::INFINITY_BITS {
        config.min_bitrate
    } else {
        Bitrate(crate::bitrate::saturated(raw_bps.whole_part() as int))
    }
}

/// The controller once a feedback at `now` was ignored, counted, or made it start over.
pub open spec fn opened(before: GccView, verdict: Gate, now: Instant) -> GccView {
    match verdict {
        Gate::Ignore => before,
        Gate::Restart => GccView { last_feedback: Some(now), ..started(before.config) },
        Gate::Proceed => GccView { last_feedback: Some(now), ..before },
    }
}

/// The controller once it has settled on an estimate.
pub open spec fn settled(before: GccView, raw_bps: Binary64) -> GccView {
    GccView { target: before.config.bounded(rate_of(before.config, raw_bps)), ..before }
}

/// Delay-based congestion controller.
#[derive(Debug)]
pub struct GccController {
    config: GccConfig,
    state: GccState,
    last_feedback_time: Option<Instant>,
    last_decrease_time: Option<Instant>,
    target_bitrate: Bitrate,
}

impl View for GccController {
    type V = GccView;

    closed spec fn view(&self) -> GccView {
        GccView {
            config: self.config,
            state: self.state,
            last_feedback: self.last_feedback_time,
            last_decrease: self.last_decrease_time,
            target: self.target_bitrate,
        }
    }
}

impl GccController {
    #[verifier::type_invariant]
    spec fn in_bounds(self) -> bool {
        self.config.min_bitrate.0 <= self.config.max_bitrate.0 ==> self.config.min_bitrate.0
            <= self.target_bitrate.0 <= self.config.max_bitrate.0
    }

    /// A controller in Hold, at the initial bitrate kept within bounds.
    pub fn new(config: GccConfig) -> (r: Self)
        ensures
            r@ == started(config),
    {
        GccController {
            config,
            state: GccState::Hold,
            last_feedback_time: None,
            last_decrease_time: None,
            target_bitrate: config.initial_bitrate.clamp(config.min_bitrate, config.max_bitrate),
        }
    }

    /// A controller with the default configuration.
    pub fn with_defaults() -> (r: Self)
        ensures
            r@ == started(r@.config),
            r@.config.min_bitrate == Bitrate(100_000),
            r@.config.max_bitrate == Bitrate(50_000_000),
            r@.config.initial_bitrate == Bitrate(2_000_000),
            r@.config.initial_rtt@ == 50 * NANOS_PER_MILLI,
    {
        GccController::new(GccConfig::default())
    }

    /// The configuration.
    pub fn config(&self) -> (r: GccConfig)
        ensures
            r == self@.config,
    {
        self.config
    }

    /// First half of a feedback: decide what becomes of it. A restart puts the controller back
    /// to its beginnings, so the owner starts its estimate and smoothed round trip over.
    pub fn open_feedback(&mut self, now: Instant) -> (r: Gate)
        ensures
            r == crate::controller::gate_of(old(self)@.last_feedback, now),
            final(self)@ == opened(old(self)@, r, now),
    {
        proof {
            use_type_invariant(&*self);
        }
        let verdict = gate(self.last_feedback_time, now);
        match verdict {
            Gate::Ignore => {},
            Gate::Restart => {
                *self = GccController {
                    config: self.config,
                    state: GccState::Hold,
                    last_feedback_time: Some(now),
                    last_decrease_time: None,
                    target_bitrate: self.config.initial_bitrate.clamp(
                        self.config.min_bitrate,
                        self.config.max_bitrate,
                    ),
                };
            },
            Gate::Proceed => {
                self.last_feedback_time = Some(now);
            },
        }
        verdict
    }

    /// Second half of a feedback that counts: steer by the queue delay and say what to do with
    /// the estimate. `srtt` is the smoothed round trip with this feedback taken in, `estimate`
    /// the estimate in bits per second, `near_cap` nine tenths of the greatest target.
    pub fn react(
        &mut self,
        fb: &TransportStats,
        now: Instant,
        srtt: Duration,
        estimate: Binary64,
        near_cap: Binary64,
    ) -> (r: GccReaction)
        ensures
            reacts(old(self)@, *fb, now, srtt, estimate, near_cap, r, final(self)@),
    {
        proof {
            use_type_invariant(&*self);
        }
        let queue_delay = clamp_duration(
            fb.queue_delay,
            Duration::from_secs(MAX_QUEUE_DELAY_SECS),
        );
        if queue_delay > Duration::from_millis(OVERUSE_THRESHOLD_MS) {
            self.state = GccState::Decrease;
        } else if queue_delay < Duration::from_millis(UNDERUSE_THRESHOLD_MS) {
            match self.state {
                GccState::Decrease => {
                    self.state = GccState::Hold;
                },
                GccState::Hold => {
                    self.state = GccState::Increase;
                },
                GccState::Increase => {},
            }
        }
        let step = match self.state {
            GccState::Decrease => {
                if decrease_suppressed(self.last_decrease_time, now, srtt) {
                    EstimateStep::Keep
                } else {
                    self.last_decrease_time = Some(now);
                    EstimateStep::BackOff
                }
            },
            GccState::Hold => EstimateStep::Keep,
            GccState::Increase => {
                if estimate.lt(near_cap) {
                    EstimateStep::GrowFast
                } else {
                    EstimateStep::GrowSlow
                }
            },
        };
        GccReaction { step, cap_for_loss: fb.exceeds_loss(LOSS_HIGH_PERCENT) }
    }

    /// Take the estimate that the reaction led to as the target, kept within bounds.
    pub fn settle(&mut self, raw_bps: Binary64)
        ensures
            final(self)@ == settled(old(self)@, raw_bps),
    {
        let rate = if raw_bps.is_nan() || raw_bps.lt(Binary64::zero()) || !raw_bps.lt(
            Binary64::from_bits(crate::binary64::INFINITY_BITS),
        ) {
            self.config.min_bitrate
        } else {
            Bitrate::from_bps_f64(raw_bps)
        };
        *self = GccController {
            config: self.config,
            state: self.state,
            last_feedback_time: self.last_feedback_time,
            last_decrease_time: self.last_decrease_time,
            target_bitrate: rate.clamp(self.config.min_bitrate, self.config.max_bitrate),
        };
    }

    /// The rate to send at. It never leaves the configured bounds.
    pub fn target_bitrate(&self) -> (r: Bitrate)
        ensures
            r == self@.target,
            self@.config.min_bitrate.0 <= self@.config.max_bitrate.0
                ==> self@.config.min_bitrate.0 <= r.0 <= self@.config.max_bitrate.0,
    {
        proof {
            use_type_invariant(self);
        }
        self.target_bitrate
    }

    /// The gap to leave between two packets.
    pub fn pacing_interval(&self) -> (r: Duration)
        ensures
            r@ == crate::controller::pacing_micros(self@.target.0)
                * crate::time::NANOS_PER_MICRO,
            r@ >= crate::time::NANOS_PER_MICRO,
    {
        pacing_interval_of(self.target_bitrate)
    }
}

/// At most one back-off per smoothed round trip: a second one comes no sooner than that after
/// the first.
pub proof fn law_one_back_off_per_round_trip(
    before: GccView,
    fb: TransportStats,
    now: Instant,
    srtt: Duration,
    estimate: Binary64,
    near_cap: Binary64,
    r: GccReaction,
    after: GccView,
)
    requires
        reacts(before, fb, now, srtt, estimate, near_cap, r, after),
        r.step is BackOff,
    ensures
        before.last_decrease matches Some(then) ==> now@ >= then@ + srtt@,
        after.last_decrease == Some(now),
{
}

/// A queue delay above the overuse threshold never lets the estimate grow, and backs it off
/// unless that happened within the last round trip.
pub proof fn law_overuse_backs_off(
    before: GccView,
    fb: TransportStats,
    now: Instant,
    srtt: Duration,
    estimate: Binary64,
    near_cap: Binary64,
    r: GccReaction,
    after: GccView,
)
    requires
        reacts(before, fb, now, srtt, estimate, near_cap, r, after),
        fb.queue_delay@ > OVERUSE_THRESHOLD_MS * NANOS_PER_MILLI,
    ensures
        after.state is Decrease,
        r.step is BackOff || r.step is Keep,
        !crate::controller::decrease_too_soon(before.last_decrease, now, srtt)
            ==> r.step is BackOff,
{
}

/// After a decrease the estimate is held for one feedback at least before it grows again.
pub proof fn law_hold_between_decrease_and_increase(
    before: GccView,
    fb: TransportStats,
    now: Instant,
    srtt: Duration,
    estimate: Binary64,
    near_cap: Binary64,
    r: GccReaction,
    after: GccView,
)
    requires
        reacts(before, fb, now, srtt, estimate, near_cap, r, after),
        before.state is Decrease,
    ensures
        after.state !is Increase,
        !(r.step is GrowFast) && !(r.step is GrowSlow),
{
}

/// Whatever estimate is settled on, the target stays within the configured bounds.
pub proof fn law_target_stays_in_bounds(config: GccConfig, rate: Bitrate)
    requires
        config.min_bitrate.0 <= config.max_bitrate.0,
    ensures
        config.min_bitrate.0 <= config.bounded(rate).0 <= config.max_bitrate.0,
{
}

/// The target is capped exactly when more than a tenth was lost: more than a tenth of the packets
/// where the report gives their fraction, else more than a tenth of the acknowledged bytes.
pub proof fn law_loss_caps_the_target(
    before: GccView,
    fb: TransportStats,
    now: Instant,
    srtt: Duration,
    estimate: Binary64,
    near_cap: Binary64,
    r: GccReaction,
    after: GccView,
)
    requires
        reacts(before, fb, now, srtt, estimate, near_cap, r, after),
    ensures
        fb.loss_fraction_q8 > 0 ==> (r.cap_for_loss <==> fb.loss_fraction_q8 * 10 > 256),
        fb.loss_fraction_q8 == 0 && fb.bytes_acked > 0 ==> (r.cap_for_loss <==> fb.bytes_lost * 10
            > fb.bytes_acked),
        fb.loss_fraction_q8 == 0 && fb.bytes_acked == 0 ==> (r.cap_for_loss <==> fb.bytes_lost > 0),
{
}

/// The queue delay says which way to go: above 25 ms down, below 10 ms one step up from Decrease
/// over Hold to Increase, and in between no other way than before.
pub proof fn law_queue_delay_steers(
    before: GccView,
    fb: TransportStats,
    now: Instant,
    srtt: Duration,
    estimate: Binary64,
    near_cap: Binary64,
    r: GccReaction,
    after: GccView,
)
    requires
        reacts(before, fb, now, srtt, estimate, near_cap, r, after),
    ensures
        fb.queue_delay@ > 25_000_000 ==> after.state is Decrease,
        fb.queue_delay@ < 10_000_000 && before.state is Decrease ==> after.state is Hold,
        fb.queue_delay@ < 10_000_000 && !(before.state is Decrease) ==> after.state is Increase,
        10_000_000 <= fb.queue_delay@ <= 25_000_000 ==> after.state == before.state,
{
}

/// The estimate moves the way the controller goes. Going down it backs off, once a round trip of at
/// least 100 microseconds has passed since the last time; going up it grows, fast while it is below
/// nine tenths of the greatest target; and else it stays. Nothing but the time of the back-off is
/// noted.
pub proof fn law_estimate_follows_the_state(
    before: GccView,
    fb: TransportStats,
    now: Instant,
    srtt: Duration,
    estimate: Binary64,
    near_cap: Binary64,
    r: GccReaction,
    after: GccView,
)
    requires
        reacts(before, fb, now, srtt, estimate, near_cap, r, after),
    ensures
        r.step is BackOff <==> after.state is Decrease && (before.last_decrease matches Some(then)
            ==> now@ >= then@ + srtt@ && now@ >= then@ + 100_000),
        r.step is GrowFast <==> after.state is Increase && estimate.below(near_cap),
        r.step is GrowSlow <==> after.state is Increase && !estimate.below(near_cap),
        after.last_decrease == (if r.step is BackOff {
            Some(now)
        } else {
            before.last_decrease
        }),
        after.config == before.config,
        after.target == before.target,
        after.last_feedback == before.last_feedback,
{
}

/// A clear path lets the estimate grow within two feedbacks, whatever went before.
pub proof fn law_clear_path_grows(
    first: GccView,
    fb1: TransportStats,
    now1: Instant,
    srtt1: Duration,
    r1: GccReaction,
    second: GccView,
    fb2: TransportStats,
    now2: Instant,
    srtt2: Duration,
    estimate: Binary64,
    near_cap: Binary64,
    r2: GccReaction,
    third: GccView,
)
    requires
        reacts(first, fb1, now1, srtt1, estimate, near_cap, r1, second),
        reacts(second, fb2, now2, srtt2, estimate, near_cap, r2, third),
        fb1.queue_delay@ < 10_000_000,
        fb2.queue_delay@ < 10_000_000,
    ensures
        r2.step is GrowFast || r2.step is GrowSlow,
{
}

/// A feedback that is ignored changes nothing. One that counts is noted and changes nothing else.
/// One that ends a long silence is noted too, and all else is as in a new controller.
pub proof fn law_silence_starts_over(before: GccView, verdict: Gate, now: Instant)
    ensures
        ({
            let after = opened(before, verdict, now);
            &&& after.config == before.config
            &&& verdict is Ignore ==> after == before
            &&& !(verdict is Ignore) ==> after.last_feedback == Some(now)
            &&& verdict is Proceed ==> after.state == before.state && after.last_decrease
                == before.last_decrease && after.target == before.target
            &&& verdict is Restart ==> after.state is Hold && after.last_decrease is None
            &&& verdict is Restart ==> after.target == started(before.config).target
        }),
{
}

/// A new controller holds at the initial bitrate, kept within the bounds, and has seen nothing.
pub proof fn law_new_controller_holds(config: GccConfig)
    ensures
        started(config).config == config,
        started(config).state is Hold,
        started(config).last_feedback is None,
        started(config).last_decrease is None,
        config.min_bitrate.0 <= config.initial_bitrate.0 <= config.max_bitrate.0
            ==> started(config).target == config.initial_bitrate,
        config.initial_bitrate.0 < config.min_bitrate.0 ==> started(config).target
            == config.min_bitrate,
        config.min_bitrate.0 <= config.max_bitrate.0 < config.initial_bitrate.0
            ==> started(config).target == config.max_bitrate,
        config.min_bitrate.0 > config.max_bitrate.0 ==> started(config).target
            == config.min_bitrate,
{
}

/// The target is the whole part of the estimate where that lies within the bounds, and else the
/// bound that it lies beyond. What is no finite number from zero on counts as the least rate.
pub proof fn law_target_is_the_estimate(before: GccView, raw_bps: Binary64)
    ensures
        ({
            let after = settled(before, raw_bps);
            let (min, max) = (before.config.min_bitrate.0, before.config.max_bitrate.0);
            let number = raw_bps.bits < 0x7FF0_0000_0000_0000 || raw_bps.bits
                == 0x8000_0000_0000_0000;
            &&& after.config == before.config && after.state == before.state
            &&& after.last_feedback == before.last_feedback
            &&& after.last_decrease == before.last_decrease
            &&& !number || min > max ==> after.target.0 == min
            &&& number && min <= raw_bps.whole_part() <= max ==> after.target.0
                == raw_bps.whole_part()
            &&& number && raw_bps.whole_part() < min ==> after.target.0 == min
            &&& number && min <= max && raw_bps.whole_part() > max ==> after.target.0 == max
        }),
{
}

} // verus!
