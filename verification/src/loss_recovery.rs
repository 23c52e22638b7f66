//! Loss recovery: which repair to ask for, how much redundancy to send, which stripe to refresh.
//!
//! [`LossRecoveryController`] advises one [`RecoveryAction`] per feedback. On short round trips
//! a retransmission is asked for first; on longer ones only redundancy or a keyframe can help in
//! time. After a keyframe was forced, nothing is recommended until it had time to arrive.
use vstd::prelude::*;

use crate::binary64::{Binary64, ONE_BITS};
use crate::time::{Duration, Instant, NANOS_PER_MICRO, NANOS_PER_MILLI, NANOS_PER_SEC};

pub use crate::gap_detector::{GapDetector, GapReport};

verus! {

/// Round trip from which on retransmission is not asked for, in milliseconds.
pub const RTT_SKIP_NACK_MS: u64 = 150;

/// Round trip from which on any loss at all forces a keyframe, in milliseconds.
pub const RTT_ANY_LOSS_MS: u64 = 200;

/// Round trip above which any freeze forces a keyframe, in milliseconds.
pub const RTT_HIGH_MS: u64 = 300;

/// Least time between two forced keyframes, in milliseconds.
pub const IDR_SUPPRESS_MIN_MS: u64 = 500;

/// Shortest round trip that is believed, in microseconds.
pub const MIN_RTT_US: u64 = 100;

/// Most frames lost in a row for which retransmission is asked for.
pub const NACK_MAX_CONSECUTIVE_LOSS: u32 = 2;

/// Pattern of 0.05: loss from which on redundancy cannot cover.
pub const FEC_LOSS_THRESHOLD: u64 = 0x3FA9_9999_9999_999A;

/// Frame gap that forces a keyframe.
pub const IDR_FRAME_GAP_THRESHOLD: u32 = 3;

/// Frame gap that forces a keyframe on round trips from 150 ms to 300 ms.
pub const IDR_FRAME_GAP_THRESHOLD_MID: u32 = 2;

/// Age after which a keyframe is stale, in seconds.
pub const MAX_KEYFRAME_AGE_SECS: u64 = 10;

/// Pattern of 0.01: loss above which a stale keyframe is replaced.
pub const STALE_KEYFRAME_LOSS_THRESHOLD: u64 = 0x3F84_7AE1_47AE_147B;

/// A retransmission request for one sequence number.
#[derive(Debug, Clone, Copy, PartialEq, Eq, Structural)]
pub struct NackRequest {
    /// The number believed lost.
    pub seq: u16,
}

/// What to do about the loss seen in one feedback.
#[derive(Debug, Clone, PartialEq, Eq)]
pub enum RecoveryAction {
    /// Nothing: there is no loss to act on, or recovery is under way.
    NoAction,
    /// Ask for retransmission of the listed numbers.
    Nack(Vec<NackRequest>),
    /// Let redundancy repair the loss.
    RelyOnFec,
    /// Ask the encoder for a keyframe now.
    ForcedIdr,
}

/// Loss as seen in one feedback.
#[derive(Debug, Clone)]
pub struct LossState {
    /// Round-trip time.
    pub rtt: Duration,
    /// Frames lost in a row.
    pub consecutive_loss: u32,
    /// Loss fraction over the last five seconds, clamped to `[0, 1]` before use.
    pub loss_5s: Binary64,
    /// Gap between the last received frame and the most recent one seen.
    pub frame_gap: u32,
    /// Time since the last complete keyframe.
    pub time_since_keyframe: Duration,
    /// Repair ratio now in force, clamped to `[0, 1]` before use.
    pub fec_ratio: Binary64,
    /// Sequence numbers known to be missing.
    pub missing_seqs: Vec<u16>,
}

/// The larger of two lengths.
pub open spec fn longer(a: nat, b: nat) -> nat {
    if a < b {
        b
    } else {
        a
    }
}

/// The round trip that is believed, in nanoseconds.
pub open spec fn believed_rtt(rtt: Duration) -> nat {
    longer(rtt@, (MIN_RTT_US * NANOS_PER_MICRO) as nat)
}

/// How long after a forced keyframe nothing is recommended: 500 ms or two round trips, whichever
/// is longer.
pub open spec fn suppress_window(rtt: Duration) -> nat {
    let twice = 2 * believed_rtt(rtt);
    longer(
        (IDR_SUPPRESS_MIN_MS * NANOS_PER_MILLI) as nat,
        if twice > crate::time::MAX_NANOS {
            crate::time::MAX_NANOS as nat
        } else {
            twice
        },
    )
}

/// Time from `then` to `now`; none has passed when the clock went backwards.
pub open spec fn elapsed(then: Instant, now: Instant) -> nat {
    if then@ <= now@ {
        (now@ - then@) as nat
    } else {
        0
    }
}

/// The keyframe forced at `last` is still on its way.
pub open spec fn suppressed(last: Option<Instant>, rtt: Duration, now: Instant) -> bool {
    last matches Some(then) && elapsed(then, now) < suppress_window(rtt)
}

impl LossState {
    /// Loss fraction that the decision goes by.
    pub open spec fn loss(self) -> Binary64 {
        self.loss_5s.restricted(Binary64 { bits: 0 }, Binary64 { bits: ONE_BITS })
    }

    /// Repair ratio that the decision goes by.
    pub open spec fn repair(self) -> Binary64 {
        self.fec_ratio.restricted(Binary64 { bits: 0 }, Binary64 { bits: ONE_BITS })
    }

    /// Retransmission can help: the round trip is short, little was lost, and it is known what.
    pub open spec fn wants_nack(self) -> bool {
        &&& believed_rtt(self.rtt) < RTT_SKIP_NACK_MS * NANOS_PER_MILLI
        &&& self.consecutive_loss <= NACK_MAX_CONSECUTIVE_LOSS
        &&& self.missing_seqs@.len() > 0
    }

    /// Frame gap that forces a keyframe at this round trip.
    pub open spec fn gap_limit(self) -> u32 {
        if RTT_SKIP_NACK_MS * NANOS_PER_MILLI <= believed_rtt(self.rtt) <= RTT_HIGH_MS
            * NANOS_PER_MILLI {
            IDR_FRAME_GAP_THRESHOLD_MID
        } else {
            IDR_FRAME_GAP_THRESHOLD
        }
    }

    /// Only a keyframe helps.
    pub open spec fn wants_idr(self) -> bool {
        ||| self.frame_gap >= self.gap_limit()
        ||| (Binary64 { bits: FEC_LOSS_THRESHOLD }).at_most(self.loss())
        ||| self.time_since_keyframe@ > MAX_KEYFRAME_AGE_SECS * NANOS_PER_SEC && (Binary64 {
            bits: STALE_KEYFRAME_LOSS_THRESHOLD,
        }).below(self.loss())
        ||| believed_rtt(self.rtt) > RTT_HIGH_MS * NANOS_PER_MILLI && self.frame_gap >= 1
        ||| believed_rtt(self.rtt) >= RTT_ANY_LOSS_MS * NANOS_PER_MILLI && (Binary64 {
            bits: 0,
        }).below(self.loss())
    }

    /// Redundancy covers the loss.
    pub open spec fn fec_covers(self) -> bool {
        self.loss().below(self.repair()) && self.frame_gap <= 1
    }
}

/// `a` is the action for loss state `s` when no keyframe is on its way: retransmission where it
/// can help, else a keyframe where one is needed, else redundancy where it covers.
pub open spec fn advises(s: LossState, a: RecoveryAction) -> bool {
    if s.wants_nack() {
        a matches RecoveryAction::Nack(requests) && requests@ == s.missing_seqs@.map_values(
            |seq: u16| NackRequest { seq },
        )
    } else if s.wants_idr() {
        a is ForcedIdr
    } else if s.fec_covers() {
        a is RelyOnFec
    } else {
        a is NoAction
    }
}

/// Per-feedback loss recovery. Its view is the time of the last forced keyframe.
#[derive(Debug, Clone, Copy)]
pub struct LossRecoveryController {
    last_idr_request: Option<Instant>,
}

impl View for LossRecoveryController {
    type V = Option<Instant>;

    closed spec fn view(&self) -> Option<Instant> {
        self.last_idr_request
    }
}

impl LossRecoveryController {
    /// A controller that has not forced a keyframe yet.
    pub fn new() -> (r: Self)
        ensures
            r@ is None,
    {
        LossRecoveryController { last_idr_request: None }
    }

    /// Recommend an action for `state` at time `now`.
    pub fn on_feedback(&mut self, state: &LossState, now: Instant) -> (r: RecoveryAction)
        ensures
            feedback_step(old(self)@, *state, now, r, final(self)@),
    {
        let rtt = state.rtt.max(Duration::from_micros(MIN_RTT_US));
        let window = Duration::from_millis(IDR_SUPPRESS_MIN_MS).max(rtt.saturating_mul(2));
        if let Some(last_idr) = self.last_idr_request {
            if now.saturating_duration_since(last_idr) < window {
                return RecoveryAction::NoAction;
            }
        }
        let action = determine_action(state);
        if let RecoveryAction::ForcedIdr = action {
            self.last_idr_request = Some(now);
        }
        action
    }

    /// How much of the suppression window for `rtt` is left at `now`, or `None` when no keyframe
    /// was forced or the window is over.
    pub fn suppression_remaining(&self, rtt: Duration, now: Instant) -> (r: Option<Duration>)
        ensures
            r is Some <==> suppressed(self@, rtt, now),
            r matches Some(left) ==> left@ == suppress_window(rtt) - elapsed(self@->0, now),
    {
        match self.last_idr_request {
            None => None,
            Some(last_idr) => {
                let believed = rtt.max(Duration::from_micros(MIN_RTT_US));
                let window = Duration::from_millis(IDR_SUPPRESS_MIN_MS).max(
                    believed.saturating_mul(2),
                );
                let passed = now.saturating_duration_since(last_idr);
                if passed < window {
                    window.checked_sub(passed)
                } else {
                    None
                }
            },
        }
    }
}

impl Default for LossRecoveryController {
    fn default() -> (r: Self)
        ensures
            r@ is None,
    {
        LossRecoveryController::new()
    }
}

/// The action for `state` when no keyframe is on its way.
pub fn determine_action(state: &LossState) -> (r: RecoveryAction)
    ensures
        advises(*state, r),
{
    let rtt = state.rtt.max(Duration::from_micros(MIN_RTT_US));
    let loss = state.loss_5s.clamp_unit();
    let fec = state.fec_ratio.clamp_unit();
    if rtt < Duration::from_millis(RTT_SKIP_NACK_MS) && state.consecutive_loss
        <= NACK_MAX_CONSECUTIVE_LOSS && state.missing_seqs.len() > 0 {
        let mut requests: Vec<NackRequest> = Vec::new();
        let mut i: usize = 0;
        while i < state.missing_seqs.len()
            invariant
                i <= state.missing_seqs@.len(),
                requests@ == state.missing_seqs@.take(i as int).map_values(
                    |seq: u16| NackRequest { seq },
                ),
            decreases state.missing_seqs@.len() - i,
        {
            requests.push(NackRequest { seq: state.missing_seqs[i] });
            i = i + 1;
        }
        assert(state.missing_seqs@.take(i as int) =~= state.missing_seqs@);
        return RecoveryAction::Nack(requests);
    }
    let gap_limit: u32 = if rtt >= Duration::from_millis(RTT_SKIP_NACK_MS) && rtt
        <= Duration::from_millis(RTT_HIGH_MS) {
        IDR_FRAME_GAP_THRESHOLD_MID
    } else {
        IDR_FRAME_GAP_THRESHOLD
    };
    let needs_idr = state.frame_gap >= gap_limit || Binary64::from_bits(FEC_LOSS_THRESHOLD).le(
        loss,
    ) || (state.time_since_keyframe > Duration::from_secs(MAX_KEYFRAME_AGE_SECS)
        && Binary64::from_bits(STALE_KEYFRAME_LOSS_THRESHOLD).lt(loss)) || (rtt
        > Duration::from_millis(RTT_HIGH_MS) && state.frame_gap >= 1) || (rtt
        >= Duration::from_millis(RTT_ANY_LOSS_MS) && Binary64::zero().lt(loss));
    if needs_idr {
        return RecoveryAction::ForcedIdr;
    }
    if loss.lt(fec) && state.frame_gap <= 1 {
        return RecoveryAction::RelyOnFec;
    }
    RecoveryAction::NoAction
}

/// The outcome `a` of a feedback `s` at time `now`, and the time of the last forced keyframe
/// before and after it.
pub open spec fn feedback_step(
    before: Option<Instant>,
    s: LossState,
    now: Instant,
    a: RecoveryAction,
    after: Option<Instant>,
) -> bool {
    if suppressed(before, s.rtt, now) {
        a is NoAction && after == before
    } else {
        advises(s, a) && after == if a is ForcedIdr {
            Some(now)
        } else {
            before
        }
    }
}

/// Keyframes are not forced in a burst: between one forced keyframe and the next, at least
/// 500 ms and at least two round trips pass, whatever the feedback in between.
pub proof fn law_forced_idrs_are_apart(
    then: Instant,
    s: LossState,
    now: Instant,
    a: RecoveryAction,
    after: Option<Instant>,
)
    requires
        feedback_step(Some(then), s, now, a, after),
        a is ForcedIdr,
        then@ <= now@ <= crate::time::MAX_NANOS,
    ensures
        now@ - then@ >= IDR_SUPPRESS_MIN_MS * NANOS_PER_MILLI,
        now@ - then@ >= 2 * s.rtt@ || now@ - then@ >= crate::time::MAX_NANOS,
        after == Some(now),
{
}

/// Inside the window after a forced keyframe nothing is recommended and nothing is forgotten,
/// even when the clock goes backwards.
pub proof fn law_no_action_while_suppressed(
    then: Instant,
    s: LossState,
    now: Instant,
    a: RecoveryAction,
    after: Option<Instant>,
)
    requires
        feedback_step(Some(then), s, now, a, after),
        now@ < then@ + IDR_SUPPRESS_MIN_MS * NANOS_PER_MILLI,
    ensures
        a is NoAction,
        after == Some(then),
{
}

/// From a round trip of 150 ms on, retransmission is never asked for.
pub proof fn law_long_round_trips_skip_nack(s: LossState, a: RecoveryAction)
    requires
        advises(s, a),
        s.rtt@ >= RTT_SKIP_NACK_MS * NANOS_PER_MILLI,
    ensures
        a !is Nack,
{
}

/// Above a round trip of 300 ms any freeze forces a keyframe.
pub proof fn law_high_round_trip_freeze_forces_idr(s: LossState, a: RecoveryAction)
    requires
        advises(s, a),
        s.rtt@ > RTT_HIGH_MS * NANOS_PER_MILLI,
        s.frame_gap >= 1,
    ensures
        a is ForcedIdr,
{
}

/// Bounds of the repair ratio.
#[derive(Debug, Clone, Copy, PartialEq, Eq, Structural)]
pub struct FecPolicyConfig {
    /// Ratio used even under clean conditions.
    pub min_ratio: Binary64,
    /// Largest ratio.
    pub max_ratio: Binary64,
}

/// Patterns of the ratios 0.05, 0.10, 0.20, 0.30 and 0.50.
pub const RATIO_MINIMAL: u64 = 0x3FA9_9999_9999_999A;

/// Pattern of 0.10.
pub const RATIO_LIGHT: u64 = 0x3FB9_9999_9999_999A;

/// Pattern of 0.20.
pub const RATIO_MODERATE: u64 = 0x3FC9_9999_9999_999A;

/// Pattern of 0.30.
pub const RATIO_HEAVY: u64 = 0x3FD3_3333_3333_3333;

/// Pattern of 0.50.
pub const RATIO_FULL: u64 = 0x3FE0_0000_0000_0000;

/// Pattern of a loss of 0.01.
pub const LOSS_CLEAN: u64 = 0x3F84_7AE1_47AE_147B;

/// Pattern of a loss of 0.03.
pub const LOSS_LIGHT: u64 = 0x3F9E_B851_EB85_1EB8;

/// Pattern of a loss of 0.05.
pub const LOSS_MODERATE: u64 = 0x3FA9_9999_9999_999A;

/// Pattern of a loss of 0.10.
pub const LOSS_HEAVY: u64 = 0x3FB9_9999_9999_999A;

impl Default for FecPolicyConfig {
    fn default() -> (r: Self)
        ensures
            r.min_ratio.bits == RATIO_MINIMAL,
            r.max_ratio.bits == RATIO_FULL,
    {
        FecPolicyConfig {
            min_ratio: Binary64::from_bits(RATIO_MINIMAL),
            max_ratio: Binary64::from_bits(RATIO_FULL),
        }
    }
}

/// Maps observed loss to a repair ratio. Its view is the interval that the ratio is kept in.
pub struct FecPolicy {
    min_ratio: Binary64,
    max_ratio: Binary64,
}

impl View for FecPolicy {
    type V = (Binary64, Binary64);

    closed spec fn view(&self) -> (Binary64, Binary64) {
        (self.min_ratio, self.max_ratio)
    }
}

/// The ratio that a loss calls for, before it is kept within a policy's bounds.
pub open spec fn called_for(loss: Binary64) -> Binary64 {
    if loss.at_most(Binary64 { bits: LOSS_CLEAN }) {
        Binary64 { bits: RATIO_MINIMAL }
    } else if loss.at_most(Binary64 { bits: LOSS_LIGHT }) {
        Binary64 { bits: RATIO_LIGHT }
    } else if loss.at_most(Binary64 { bits: LOSS_MODERATE }) {
        Binary64 { bits: RATIO_MODERATE }
    } else if loss.at_most(Binary64 { bits: LOSS_HEAVY }) {
        Binary64 { bits: RATIO_HEAVY }
    } else {
        Binary64 { bits: RATIO_FULL }
    }
}

/// The ratio that a policy with bounds `bounds` targets at observed loss `loss_5s`.
pub open spec fn targets(bounds: (Binary64, Binary64), loss_5s: Binary64) -> Binary64 {
    called_for(
        loss_5s.restricted(Binary64 { bits: 0 }, Binary64 { bits: ONE_BITS }),
    ).restricted(bounds.0, bounds.1)
}

impl FecPolicy {
    /// A policy with the given bounds, each clamped to `[0, 1]`.
    pub fn new(config: FecPolicyConfig) -> (r: Self)
        ensures
            r@.0 == config.min_ratio.restricted(Binary64 { bits: 0 }, Binary64 { bits: ONE_BITS }),
            r@.1 == config.max_ratio.restricted(Binary64 { bits: 0 }, Binary64 { bits: ONE_BITS }),
    {
        FecPolicy {
            min_ratio: config.min_ratio.clamp_unit(),
            max_ratio: config.max_ratio.clamp_unit(),
        }
    }

    /// The repair ratio for the observed loss. The bounds must form an interval.
    pub fn target_ratio(&self, loss_5s: Binary64) -> (r: Binary64)
        requires
            self@.0.at_most(self@.1),
        ensures
            r == targets(self@, loss_5s),
            self@.0.at_most(r),
            r.at_most(self@.1),
    {
        let loss = loss_5s.clamp_unit();
        let raw = if loss.le(Binary64::from_bits(LOSS_CLEAN)) {
            Binary64::from_bits(RATIO_MINIMAL)
        } else if loss.le(Binary64::from_bits(LOSS_LIGHT)) {
            Binary64::from_bits(RATIO_LIGHT)
        } else if loss.le(Binary64::from_bits(LOSS_MODERATE)) {
            Binary64::from_bits(RATIO_MODERATE)
        } else if loss.le(Binary64::from_bits(LOSS_HEAVY)) {
            Binary64::from_bits(RATIO_HEAVY)
        } else {
            Binary64::from_bits(RATIO_FULL)
        };
        raw.clamp(self.min_ratio, self.max_ratio)
    }
}

/// More loss never calls for less redundancy.
pub proof fn law_fec_ratio_monotone(bounds: (Binary64, Binary64), low: Binary64, high: Binary64)
    requires
        bounds.0.at_most(bounds.1),
        low.at_most(high),
    ensures
        targets(bounds, low).at_most(targets(bounds, high)),
{
}

/// One stripe of a rolling refresh.
#[derive(Debug, Clone, Copy, PartialEq, Eq, Structural)]
pub struct RefreshStripe {
    /// Index of the stripe within the period, from zero.
    pub stripe_index: u32,
    /// Stripes in the period.
    pub period: u32,
}

/// Stripes that a frame is divided into at `fps` frames per second: a quarter of the rate, rounded
/// up, and at least one.
pub open spec fn refresh_period(fps: u32) -> int {
    if fps == 0 {
        1
    } else {
        (fps + 3) / 4
    }
}

/// The number of stripes at `fps` frames per second.
pub fn compute_period(fps: u32) -> (r: u32)
    ensures
        r == refresh_period(fps),
        r >= 1,
{
    let whole: u32 = fps / 4;
    if fps == 0 || fps % 4 != 0 {
        whole + 1
    } else {
        whole
    }
}

/// Abstract state of the refresh schedule.
pub struct RefreshState {
    /// Frame rate.
    pub fps: u32,
    /// Stripe of the next frame.
    pub stripe: int,
}

/// Cycles through the stripes of a frame, one per encoded frame.
pub struct RollingIntraRefresh {
    fps: u32,
    current_stripe: u32,
    period: u32,
}

impl View for RollingIntraRefresh {
    type V = RefreshState;

    closed spec fn view(&self) -> RefreshState {
        RefreshState { fps: self.fps, stripe: self.current_stripe as int }
    }
}

/// The schedule after one frame.
pub open spec fn next_stripe(s: RefreshState) -> RefreshState {
    RefreshState { fps: s.fps, stripe: (s.stripe + 1) % refresh_period(s.fps) }
}

impl RollingIntraRefresh {
    #[verifier::type_invariant]
    spec fn consistent(self) -> bool {
        &&& self.period == refresh_period(self.fps)
        &&& self.current_stripe < self.period
    }

    /// A schedule for the given frame rate, at stripe zero.
    pub fn new(fps: u32) -> (r: Self)
        ensures
            r@ == (RefreshState { fps, stripe: 0 }),
    {
        RollingIntraRefresh { fps, current_stripe: 0, period: compute_period(fps) }
    }

    /// The stripe to refresh in this frame; moves on to the next one.
    pub fn advance(&mut self) -> (r: RefreshStripe)
        ensures
            r.stripe_index == old(self)@.stripe,
            r.period == refresh_period(old(self)@.fps),
            0 <= r.stripe_index < r.period,
            final(self)@ == next_stripe(old(self)@),
    {
        proof {
            use_type_invariant(&*self);
        }
        let stripe = RefreshStripe { stripe_index: self.current_stripe, period: self.period };
        let next: u32 = self.current_stripe + 1;
        proof {
            let p = refresh_period(self.fps) as nat;
            if next < p {
                vstd::arithmetic::div_mod::lemma_small_mod(next as nat, p);
            } else {
                vstd::arithmetic::div_mod::lemma_mod_self_0(p as int);
            }
        }
        if next >= self.period {
            self.current_stripe = 0;
        } else {
            self.current_stripe = next;
        }
        stripe
    }

    /// Change the frame rate; the schedule starts over at stripe zero.
    pub fn set_fps(&mut self, fps: u32)
        ensures
            final(self)@ == (RefreshState { fps, stripe: 0 }),
    {
        *self = RollingIntraRefresh { fps, current_stripe: 0, period: compute_period(fps) };
    }

    /// Stripes in the present period.
    pub fn period(&self) -> (r: u32)
        ensures
            r == refresh_period(self@.fps),
    {
        proof {
            use_type_invariant(self);
        }
        self.period
    }

    /// The frame rate.
    pub fn fps(&self) -> (r: u32)
        ensures
            r == self@.fps,
    {
        self.fps
    }
}

/// The schedule after `n` frames.
pub open spec fn stripes_after(s: RefreshState, n: nat) -> RefreshState
    decreases n,
{
    if n == 0 {
        s
    } else {
        next_stripe(stripes_after(s, (n - 1) as nat))
    }
}

/// After `n` frames the schedule stands `n` stripes further, modulo the period.
pub proof fn law_stripes_cycle(s: RefreshState, n: nat)
    requires
        0 <= s.stripe < refresh_period(s.fps),
    ensures
        stripes_after(s, n) == (RefreshState {
            fps: s.fps,
            stripe: (s.stripe + n) % refresh_period(s.fps),
        }),
    decreases n,
{
    let p = refresh_period(s.fps);
    if n == 0 {
        vstd::arithmetic::div_mod::lemma_small_mod(s.stripe as nat, p as nat);
    } else {
        law_stripes_cycle(s, (n - 1) as nat);
        vstd::arithmetic::div_mod::lemma_add_mod_noop(s.stripe + n - 1, 1, p);
        vstd::arithmetic::div_mod::lemma_add_mod_noop_right(1, s.stripe + n - 1, p);
    }
}

/// Every stripe is refreshed exactly once in each run of `period` frames: for each stripe there
/// is one, and only one, frame of the period that refreshes it.
pub proof fn law_period_covers_frame(s: RefreshState, stripe: int) -> (k: nat)
    requires
        0 <= s.stripe < refresh_period(s.fps),
        0 <= stripe < refresh_period(s.fps),
    ensures
        k < refresh_period(s.fps),
        stripes_after(s, k).stripe == stripe,
        forall|j: nat|
            j < refresh_period(s.fps) && (#[trigger] stripes_after(s, j)).stripe == stripe ==> j
                == k,
{
    let p = refresh_period(s.fps);
    let k: nat = if stripe >= s.stripe {
        (stripe - s.stripe) as nat
    } else {
        (stripe - s.stripe + p) as nat
    };
    assert forall|j: nat| j < p implies (#[trigger] stripes_after(s, j)).stripe == if s.stripe + j
        < p {
        s.stripe + j
    } else {
        s.stripe + j - p
    } by {
        law_stripes_cycle(s, j);
        if s.stripe + j < p {
            vstd::arithmetic::div_mod::lemma_small_mod((s.stripe + j) as nat, p as nat);
        } else {
            vstd::arithmetic::div_mod::lemma_mod_sub_multiples_vanish(s.stripe + j, p);
            vstd::arithmetic::div_mod::lemma_small_mod((s.stripe + j - p) as nat, p as nat);
        }
    }
    assert(stripes_after(s, k).stripe == stripe);
    k
}

/// Retransmission is asked for exactly when the round trip is under 150 ms, at most two frames were
/// lost in a row, and some number is known to be missing.
pub proof fn law_nack_where_it_helps(s: LossState, a: RecoveryAction)
    requires
        advises(s, a),
    ensures
        a is Nack <==> s.rtt@ < 150_000_000 && s.consecutive_loss <= 2 && s.missing_seqs@.len() > 0,
{
}

/// Every number that is missing is asked for, each once and in the order given, and no other
/// number is.
pub proof fn law_nack_asks_for_all_that_is_missing(s: LossState, a: RecoveryAction, q: u16)
    requires
        advises(s, a),
        a is Nack,
    ensures
        a->Nack_0@.len() == s.missing_seqs@.len(),
        forall|i: int|
            0 <= i < s.missing_seqs@.len() ==> (#[trigger] a->Nack_0@[i]).seq == s.missing_seqs@[i],
        s.missing_seqs@.contains(q) <==> exists|i: int|
            0 <= i < a->Nack_0@.len() && (#[trigger] a->Nack_0@[i]).seq == q,
{
    let requests = a->Nack_0@;
    assert forall|i: int| 0 <= i < s.missing_seqs@.len() implies (#[trigger] requests[i]).seq
        == s.missing_seqs@[i] by {}
    if s.missing_seqs@.contains(q) {
        let i = choose|i: int| 0 <= i < s.missing_seqs@.len() && s.missing_seqs@[i] == q;
        assert(requests[i].seq == q);
    }
    if exists|i: int| 0 <= i < requests.len() && (#[trigger] requests[i]).seq == q {
        let i = choose|i: int| 0 <= i < requests.len() && (#[trigger] requests[i]).seq == q;
        assert(s.missing_seqs@[i] == q);
    }
}

/// Where retransmission does not help, a keyframe is forced exactly when: three frames are missing,
/// or two on round trips from 150 to 300 ms, or one above; or a twentieth or more was lost; or more
/// than a hundredth while the last keyframe is over ten seconds old; or anything at all on round
/// trips from 200 ms on.
pub proof fn law_keyframe_where_nothing_else_helps(s: LossState, a: RecoveryAction)
    requires
        advises(s, a),
        !(a is Nack),
    ensures
        ({
            // The loss and the repair ratio, kept between 0 and 1. A NaN is on neither side of
            // anything.
            let loss = Binary64 {
                bits: if s.loss_5s.below(Binary64 { bits: 0 }) {
                    0
                } else if (Binary64 { bits: 0x3FF0_0000_0000_0000 }).below(s.loss_5s) {
                    0x3FF0_0000_0000_0000
                } else {
                    s.loss_5s.bits
                },
            };
            a is ForcedIdr <==> {
                ||| s.frame_gap >= 3
                ||| s.frame_gap >= 2 && s.rtt@ >= 150_000_000
                ||| s.frame_gap >= 1 && s.rtt@ > 300_000_000
                ||| (Binary64 { bits: 0x3FA9_9999_9999_999A }).at_most(loss)
                ||| s.time_since_keyframe@ > 10_000_000_000 && (Binary64 {
                    bits: 0x3F84_7AE1_47AE_147B,
                }).below(loss)
                ||| s.rtt@ >= 200_000_000 && (Binary64 { bits: 0 }).below(loss)
            }
        }),
{
}

/// Where neither retransmission nor a keyframe is called for, redundancy is relied on exactly when
/// it exceeds the loss and at most one frame is missing; and else nothing is done.
pub proof fn law_redundancy_where_it_covers(s: LossState, a: RecoveryAction)
    requires
        advises(s, a),
        !(a is Nack),
        !(a is ForcedIdr),
    ensures
        ({
            // The loss and the repair ratio, kept between 0 and 1. A NaN is on neither side of
            // anything.
            let loss = Binary64 {
                bits: if s.loss_5s.below(Binary64 { bits: 0 }) {
                    0
                } else if (Binary64 { bits: 0x3FF0_0000_0000_0000 }).below(s.loss_5s) {
                    0x3FF0_0000_0000_0000
                } else {
                    s.loss_5s.bits
                },
            };
            let repair = Binary64 {
                bits: if s.fec_ratio.below(Binary64 { bits: 0 }) {
                    0
                } else if (Binary64 { bits: 0x3FF0_0000_0000_0000 }).below(s.fec_ratio) {
                    0x3FF0_0000_0000_0000
                } else {
                    s.fec_ratio.bits
                },
            };
            &&& a is RelyOnFec <==> loss.below(repair) && s.frame_gap <= 1
            &&& a is RelyOnFec || a is NoAction
        }),
{
}

/// After a forced keyframe nothing is recommended until 500 ms and two round trips have passed, and
/// from then on, or without a forced keyframe before, the loss alone decides. Only a forced
/// keyframe starts a new window.
pub proof fn law_suppression_ends_in_time(
    before: Option<Instant>,
    s: LossState,
    now: Instant,
    a: RecoveryAction,
    after: Option<Instant>,
)
    requires
        feedback_step(before, s, now, a, after),
        2 * s.rtt@ <= crate::time::MAX_NANOS,
    ensures
        before matches Some(then) ==> (now@ < then@ + 500_000_000 || now@ < then@ + 2 * s.rtt@
            ==> a is NoAction && after == before),
        before matches Some(then) ==> (now@ >= then@ + 500_000_000 && now@ >= then@ + 2 * s.rtt@
            ==> advises(s, a)),
        before is None ==> advises(s, a),
        a is ForcedIdr ==> after == Some(now),
        !(a is ForcedIdr) ==> after == before,
{
}

/// What is left of the window and what has passed of it make up the window: 500 ms or two round
/// trips, whichever is longer.
pub proof fn law_suppression_window(last: Instant, rtt: Duration, now: Instant)
    requires
        2 * rtt@ <= crate::time::MAX_NANOS,
        last@ <= now@,
    ensures
        suppress_window(rtt) >= 500_000_000,
        suppress_window(rtt) >= 2 * rtt@,
        suppress_window(rtt) == 500_000_000 || suppress_window(rtt) == 2 * rtt@,
        elapsed(last, now) == now@ - last@,
        suppressed(Some(last), rtt, now) <==> now@ < last@ + 500_000_000 || now@ < last@ + 2 * rtt@,
        !suppressed(None, rtt, now),
{
}

/// A clock that went backwards has let no time pass.
pub proof fn law_backward_clock_suppresses(last: Instant, rtt: Duration, now: Instant)
    requires
        now@ < last@,
    ensures
        elapsed(last, now) == 0,
        suppressed(Some(last), rtt, now),
{
}

/// The repair ratio rises with the loss: 0.05 up to a loss of 0.01, then 0.10 up to 0.03, 0.20 up
/// to 0.05, 0.30 up to 0.10, and 0.50 beyond; each kept within the policy's bounds.
pub proof fn law_ratio_for_each_band(bounds: (Binary64, Binary64), loss: Binary64)
    requires
        bounds.0.at_most(bounds.1),
        loss.bits <= 0x3FF0_0000_0000_0000,
    ensures
        ({
            let called = Binary64 {
                bits: if loss.bits <= 0x3F84_7AE1_47AE_147B {
                    0x3FA9_9999_9999_999A
                } else if loss.bits <= 0x3F9E_B851_EB85_1EB8 {
                    0x3FB9_9999_9999_999A
                } else if loss.bits <= 0x3FA9_9999_9999_999A {
                    0x3FC9_9999_9999_999A
                } else if loss.bits <= 0x3FB9_9999_9999_999A {
                    0x3FD3_3333_3333_3333
                } else {
                    0x3FE0_0000_0000_0000
                },
            };
            let r = targets(bounds, loss);
            &&& bounds.0.at_most(r) && r.at_most(bounds.1)
            &&& bounds.0.at_most(called) && called.at_most(bounds.1) ==> r == called
            &&& called.below(bounds.0) ==> r == bounds.0
            &&& bounds.1.below(called) ==> r == bounds.1
        }),
{
}

/// A loss below zero counts as none, and one above one as all. What is no number calls for the most
/// redundancy.
pub proof fn law_ratio_for_odd_losses(bounds: (Binary64, Binary64), loss: Binary64)
    requires
        bounds.0.at_most(bounds.1),
    ensures
        loss.at_most(Binary64 { bits: 0 }) ==> targets(bounds, loss) == targets(
            bounds,
            Binary64 { bits: 0 },
        ),
        (Binary64 { bits: 0x3FF0_0000_0000_0000 }).below(loss) || loss.nan() ==> targets(
            bounds,
            loss,
        ) == targets(bounds, Binary64 { bits: 0x3FF0_0000_0000_0000 }),
{
}

/// A frame is refreshed in a quarter of a second, or just above: four times the stripes are at
/// least the frames per second, and with one stripe less they are not. There is always a stripe.
pub proof fn law_refresh_takes_a_quarter_second(fps: u32)
    ensures
        refresh_period(fps) >= 1,
        4 * refresh_period(fps) >= fps,
        fps > 0 ==> 4 * (refresh_period(fps) - 1) < fps,
        refresh_period(0) == 1,
{
}

/// Where two round trips are longer than any span can be, the longest span is waited for instead.
pub proof fn law_suppression_is_bounded(
    then: Instant,
    s: LossState,
    now: Instant,
    a: RecoveryAction,
    after: Option<Instant>,
)
    requires
        feedback_step(Some(then), s, now, a, after),
        2 * s.rtt@ > crate::time::MAX_NANOS,
    ensures
        now@ < then@ + crate::time::MAX_NANOS ==> a is NoAction && after == Some(then),
        now@ >= then@ + crate::time::MAX_NANOS ==> advises(s, a),
        a is ForcedIdr ==> after == Some(now),
        !(a is ForcedIdr) ==> after == Some(then),
{
}

} // verus!
