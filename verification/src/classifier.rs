//! Content classification: four screen signals, a score, and a hysteresis state machine.
//!
//! A [`ScoreProvider`] maps [`Signals`] to a [`Score`] in `[0, 1]`. The state machine turns the
//! stream of scores, one per classification tick, into a stable [`ContentMode`]: every change of
//! mode asks for a run of consecutive ticks on the far side of a threshold. Time is counted in
//! ticks alone.
use vstd::prelude::*;

use crate::binary64::{Binary64, ONE_BITS};

verus! {

/// Pattern of 0.65: a score above it presses toward Game.
pub const GAME_ENTER_THRESHOLD: u64 = 0x3FE4_CCCC_CCCC_CCCD;

/// Pattern of 0.40: a score below it presses out of Game.
pub const GAME_EXIT_THRESHOLD: u64 = 0x3FD9_9999_9999_999A;

/// Ticks above [`GAME_ENTER_THRESHOLD`] that enter Game.
pub const GAME_ENTER_DWELL: u32 = 8;

/// Ticks below [`GAME_EXIT_THRESHOLD`] that leave Game.
pub const GAME_EXIT_DWELL: u32 = 30;

/// Pattern of 0.35: a score above it, but not in the Game band, presses toward Scrolling.
pub const SCROLL_ENTER_THRESHOLD: u64 = 0x3FD6_6666_6666_6666;

/// Pattern of 0.25: a score below it presses out of Scrolling.
pub const SCROLL_EXIT_THRESHOLD: u64 = 0x3FD0_0000_0000_0000;

/// Ticks in the Scrolling band that enter Scrolling from Work.
pub const SCROLL_ENTER_DWELL: u32 = 4;

/// Ticks below [`SCROLL_EXIT_THRESHOLD`] that leave Scrolling for Work.
pub const SCROLL_EXIT_DWELL: u32 = 10;

/// Cursor velocity, in pixels per second, that saturates the cursor signal.
pub const CURSOR_VELOCITY_MAX_PX_S: u32 = 2000;

/// Pattern of 0.5, the class scalar of a media application.
pub const MEDIA_SIGNAL: u64 = 0x3FE0_0000_0000_0000;

/// The class of the foreground application.
#[derive(Debug, Clone, Copy, PartialEq, Eq, Structural)]
pub enum AppClass {
    /// Desktop or office application.
    Work,
    /// Media player, or browser with video.
    Media,
    /// Game or fullscreen-exclusive application.
    Game,
}

impl AppClass {
    /// The class as a signal: Work is 0.0, Media is 0.5, Game is 1.0.
    pub open spec fn signal(self) -> Binary64 {
        match self {
            AppClass::Work => (Binary64 { bits: 0 }),
            AppClass::Media => (Binary64 { bits: MEDIA_SIGNAL }),
            AppClass::Game => (Binary64 { bits: ONE_BITS }),
        }
    }

    /// Convert the class to its signal.
    pub fn to_signal_c(self) -> (r: Binary64)
        ensures
            r == self.signal(),
            r.in_unit(),
    {
        match self {
            AppClass::Work => Binary64::zero(),
            AppClass::Media => Binary64::from_bits(MEDIA_SIGNAL),
            AppClass::Game => Binary64::one(),
        }
    }
}

/// `v` restricted to `[0, 1]`, with 0.0 in place of a NaN.
pub open spec fn unit_of(v: Binary64) -> Binary64 {
    if v.nan() {
        Binary64 { bits: 0 }
    } else {
        v.restricted(Binary64 { bits: 0 }, Binary64 { bits: ONE_BITS })
    }
}

/// Restrict `v` to `[0, 1]`, with 0.0 in place of a NaN.
fn clamp_signal(v: Binary64) -> (r: Binary64)
    ensures
        r == unit_of(v),
        r.in_unit(),
{
    if v.is_nan() {
        Binary64::zero()
    } else {
        v.clamp_unit()
    }
}

/// The four signals that a score is computed from, each in `[0, 1]`.
#[derive(Debug, Clone, Copy, PartialEq, Eq, Structural)]
pub struct Signals {
    /// Fraction of changed blocks between two frames.
    pub a: Binary64,
    /// Fraction of the screen that the system reports as damaged.
    pub b: Binary64,
    /// Foreground application class.
    pub c: Binary64,
    /// Cursor velocity relative to [`CURSOR_VELOCITY_MAX_PX_S`].
    pub d: Binary64,
}

impl Signals {
    /// All four signals are numbers in `[0, 1]`.
    pub open spec fn wf(self) -> bool {
        self.a.in_unit() && self.b.in_unit() && self.c.in_unit() && self.d.in_unit()
    }

    /// Signals from four values, each clamped to `[0, 1]`; a NaN becomes 0.0.
    pub fn new(a: Binary64, b: Binary64, c: Binary64, d: Binary64) -> (r: Self)
        ensures
            r == (Signals { a: unit_of(a), b: unit_of(b), c: unit_of(c), d: unit_of(d) }),
            r.wf(),
    {
        Signals { a: clamp_signal(a), b: clamp_signal(b), c: clamp_signal(c), d: clamp_signal(d) }
    }

    /// Signals from what the system reports. `cursor_ratio` is the cursor velocity divided by
    /// [`CURSOR_VELOCITY_MAX_PX_S`]. A fullscreen-exclusive application counts as a game,
    /// whatever its class.
    pub fn from_raw(
        mb_diff_fraction: Binary64,
        dirty_rect_fraction: Binary64,
        app_class: AppClass,
        fullscreen_exclusive: bool,
        cursor_ratio: Binary64,
    ) -> (r: Self)
        ensures
            r == (Signals {
                a: unit_of(mb_diff_fraction),
                b: unit_of(dirty_rect_fraction),
                c: if fullscreen_exclusive {
                    AppClass::Game.signal()
                } else {
                    app_class.signal()
                },
                d: unit_of(cursor_ratio),
            }),
            r.wf(),
    {
        let c = if fullscreen_exclusive {
            Binary64::one()
        } else {
            app_class.to_signal_c()
        };
        let d = clamp_signal(cursor_ratio);
        Signals::new(mb_diff_fraction, dirty_rect_fraction, c, d)
    }
}

/// A score in `[0, 1]`; higher means more game-like.
#[derive(Debug, Clone, Copy, PartialEq, Eq, Structural)]
pub struct Score {
    value: Binary64,
}

impl View for Score {
    type V = Binary64;

    closed spec fn view(&self) -> Binary64 {
        self.value
    }
}

impl Score {
    /// The score nearest to `v`; a NaN scores 0.0.
    pub fn new(v: Binary64) -> (r: Self)
        ensures
            r@ == unit_of(v),
            r@.in_unit(),
    {
        Score { value: clamp_signal(v) }
    }

    /// The score as a number.
    pub fn as_binary64(self) -> (r: Binary64)
        ensures
            r == self@,
    {
        self.value
    }
}

/// Maps signals to a score. The state machine treats every score that comes back alike, so any
/// implementation is safe to plug in.
pub trait ScoreProvider: Send + Sync {
    /// The score that this provider gives to the signals: it depends on them alone.
    spec fn rates(&self, signals: Signals) -> Score;

    /// The score of the given signals.
    fn score(&self, signals: &Signals) -> (r: Score)
        ensures
            r == self.rates(*signals),
    ;
}

/// What the encoder is configured for.
#[derive(Debug, Clone, Copy, PartialEq, Eq, Structural)]
pub enum ContentMode {
    /// Static or low-motion desktop content.
    Work,
    /// Fast scrolling or other passing motion.
    Scrolling,
    /// Full-motion content.
    Game,
}

impl ContentMode {
    /// The name of the mode.
    pub open spec fn name(self) -> Seq<char> {
        match self {
            ContentMode::Work => "Work"@,
            ContentMode::Scrolling => "Scrolling"@,
            ContentMode::Game => "Game"@,
        }
    }

    /// The mode as text.
    pub fn to_text(self) -> (r: String)
        ensures
            r@ == self.name(),
    {
        match self {
            ContentMode::Work => "Work".to_owned(),
            ContentMode::Scrolling => "Scrolling".to_owned(),
            ContentMode::Game => "Game".to_owned(),
        }
    }
}

/// State of the hysteresis machine, with its dwell counters.
#[derive(Debug, Clone, Copy, PartialEq, Eq, Structural)]
pub enum FsmState {
    /// Settled in Work.
    Work {
        /// Consecutive ticks in the Scrolling band.
        scroll_counter: u32,
    },
    /// Still presented as Work, counting toward Game.
    WorkToGame {
        /// Consecutive ticks in the Game band.
        counter: u32,
    },
    /// Settled in Scrolling. At most one of the counters is nonzero.
    Scrolling {
        /// Consecutive ticks in the Game band.
        game_counter: u32,
        /// Consecutive ticks below the Scrolling exit threshold.
        exit_counter: u32,
    },
    /// Settled in Game.
    Game {
        /// Consecutive ticks below the Game exit threshold.
        exit_counter: u32,
    },
}

/// The score lies in the Game band.
pub open spec fn in_game_band(score: Binary64) -> bool {
    (Binary64 { bits: GAME_ENTER_THRESHOLD }).below(score)
}

/// The score lies above the Scrolling entry threshold and not in the Game band.
pub open spec fn in_scroll_band(score: Binary64) -> bool {
    (Binary64 { bits: SCROLL_ENTER_THRESHOLD }).below(score) && !in_game_band(score)
}

/// The score presses out of Scrolling.
pub open spec fn leaves_scrolling(score: Binary64) -> bool {
    score.below(Binary64 { bits: SCROLL_EXIT_THRESHOLD })
}

/// The score presses out of Game.
pub open spec fn leaves_game(score: Binary64) -> bool {
    score.below(Binary64 { bits: GAME_EXIT_THRESHOLD })
}

/// One more than `counter`, at most `u32::MAX`.
pub open spec fn bumped(counter: u32) -> u32 {
    if counter == u32::MAX {
        counter
    } else {
        (counter + 1) as u32
    }
}

/// Where one tick with `score` leads from `state`.
pub open spec fn next_state(state: FsmState, score: Binary64) -> FsmState {
    match state {
        FsmState::Work { scroll_counter } => if in_game_band(score) {
            FsmState::WorkToGame { counter: 1 }
        } else if !in_scroll_band(score) {
            FsmState::Work { scroll_counter: 0 }
        } else if bumped(scroll_counter) < SCROLL_ENTER_DWELL {
            FsmState::Work { scroll_counter: bumped(scroll_counter) }
        } else {
            FsmState::Scrolling { game_counter: 0, exit_counter: 0 }
        },
        FsmState::WorkToGame { counter } => if !in_game_band(score) {
            FsmState::Work {
                scroll_counter: if in_scroll_band(score) {
                    1
                } else {
                    0
                },
            }
        } else if bumped(counter) < GAME_ENTER_DWELL {
            FsmState::WorkToGame { counter: bumped(counter) }
        } else {
            FsmState::Game { exit_counter: 0 }
        },
        FsmState::Scrolling { game_counter, exit_counter } => if in_game_band(score) {
            if bumped(game_counter) < GAME_ENTER_DWELL {
                FsmState::Scrolling { game_counter: bumped(game_counter), exit_counter: 0 }
            } else {
                FsmState::Game { exit_counter: 0 }
            }
        } else if leaves_scrolling(score) {
            if bumped(exit_counter) < SCROLL_EXIT_DWELL {
                FsmState::Scrolling { game_counter: 0, exit_counter: bumped(exit_counter) }
            } else {
                FsmState::Work { scroll_counter: 0 }
            }
        } else {
            FsmState::Scrolling { game_counter: 0, exit_counter: 0 }
        },
        FsmState::Game { exit_counter } => if !leaves_game(score) {
            FsmState::Game { exit_counter: 0 }
        } else if bumped(exit_counter) < GAME_EXIT_DWELL {
            FsmState::Game { exit_counter: bumped(exit_counter) }
        } else {
            FsmState::Work { scroll_counter: 0 }
        },
    }
}

impl FsmState {
    /// The mode that a state presents.
    pub open spec fn presents(self) -> ContentMode {
        match self {
            FsmState::Work { .. } => ContentMode::Work,
            FsmState::WorkToGame { .. } => ContentMode::Work,
            FsmState::Scrolling { .. } => ContentMode::Scrolling,
            FsmState::Game { .. } => ContentMode::Game,
        }
    }

    /// Every counter is below the dwell it counts toward, and a settled Scrolling state counts
    /// in one direction only.
    pub open spec fn wf(self) -> bool {
        match self {
            FsmState::Work { scroll_counter } => scroll_counter < SCROLL_ENTER_DWELL,
            FsmState::WorkToGame { counter } => 1 <= counter < GAME_ENTER_DWELL,
            FsmState::Scrolling { game_counter, exit_counter } => {
                &&& game_counter < GAME_ENTER_DWELL
                &&& exit_counter < SCROLL_EXIT_DWELL
                &&& game_counter == 0 || exit_counter == 0
            },
            FsmState::Game { exit_counter } => exit_counter < GAME_EXIT_DWELL,
        }
    }

    /// The mode that this state presents.
    pub fn mode(self) -> (r: ContentMode)
        ensures
            r == self.presents(),
    {
        match self {
            FsmState::Work { .. } | FsmState::WorkToGame { .. } => ContentMode::Work,
            FsmState::Scrolling { .. } => ContentMode::Scrolling,
            FsmState::Game { .. } => ContentMode::Game,
        }
    }
}

/// Holds what scores the signals.
struct Scorer<P> {
    provider: P,
}

/// The hysteresis machine with its score provider. Its view is the machine's state.
pub struct ContentClassifier {
    scorer: Scorer<Box<dyn ScoreProvider>>,
    state: FsmState,
}

impl View for ContentClassifier {
    type V = FsmState;

    closed spec fn view(&self) -> FsmState {
        self.state
    }
}

impl ContentClassifier {
    /// The score that ticks with the signals go by.
    pub closed spec fn rates(self, signals: Signals) -> Score {
        self.scorer.provider.rates(signals)
    }

    /// A classifier that starts in Work and scores signals as `provider` does.
    pub fn new(provider: Box<dyn ScoreProvider>) -> (r: Self)
        ensures
            r@ == (FsmState::Work { scroll_counter: 0 }),
            forall|signals: Signals| #[trigger] r.rates(signals) == provider.rates(signals),
    {
        let scorer = Scorer { provider };
        ContentClassifier { scorer, state: FsmState::Work { scroll_counter: 0 } }
    }

    /// One tick: score the signals, advance the machine, and return the mode it then presents.
    ///
    /// The score is the provider's; [`ContentClassifier::on_score`] says what follows from each
    /// score.
    pub fn on_tick(&mut self, signals: &Signals) -> (r: ContentMode)
        ensures
            final(self)@ == next_state(old(self)@, old(self).rates(*signals)@),
            forall|s: Signals| #[trigger] final(self).rates(s) == old(self).rates(s),
            r == final(self)@.presents(),
            old(self)@.wf() ==> final(self)@.wf(),
    {
        let score = self.scorer.provider.score(signals);
        self.on_score(score)
    }

    /// One tick with a score already computed.
    pub fn on_score(&mut self, score: Score) -> (r: ContentMode)
        ensures
            final(self)@ == next_state(old(self)@, score@),
            forall|s: Signals| #[trigger] final(self).rates(s) == old(self).rates(s),
            r == final(self)@.presents(),
            old(self)@.wf() ==> final(self)@.wf(),
    {
        self.state = ContentClassifier::advance(self.state, score.value);
        self.state.mode()
    }

    /// The mode presented now.
    pub fn current_mode(&self) -> (r: ContentMode)
        ensures
            r == self@.presents(),
    {
        self.state.mode()
    }

    /// The transition function: where one tick with `score` leads from `state`.
    pub fn advance(state: FsmState, score: Binary64) -> (r: FsmState)
        ensures
            r == next_state(state, score),
            state.wf() ==> r.wf(),
    {
        let game_band = Binary64::from_bits(GAME_ENTER_THRESHOLD).lt(score);
        let above_scroll = Binary64::from_bits(SCROLL_ENTER_THRESHOLD).lt(score);
        match state {
            FsmState::Work { scroll_counter } => {
                if game_band {
                    FsmState::WorkToGame { counter: 1 }
                } else if above_scroll {
                    let next: u32 = scroll_counter.saturating_add(1);
                    if next >= SCROLL_ENTER_DWELL {
                        FsmState::Scrolling { game_counter: 0, exit_counter: 0 }
                    } else {
                        FsmState::Work { scroll_counter: next }
                    }
                } else {
                    FsmState::Work { scroll_counter: 0 }
                }
            },
            FsmState::WorkToGame { counter } => {
                if game_band {
                    let next: u32 = counter.saturating_add(1);
                    if next >= GAME_ENTER_DWELL {
                        FsmState::Game { exit_counter: 0 }
                    } else {
                        FsmState::WorkToGame { counter: next }
                    }
                } else if above_scroll {
                    FsmState::Work { scroll_counter: 1 }
                } else {
                    FsmState::Work { scroll_counter: 0 }
                }
            },
            FsmState::Scrolling { game_counter, exit_counter } => {
                if game_band {
                    let next: u32 = game_counter.saturating_add(1);
                    if next >= GAME_ENTER_DWELL {
                        FsmState::Game { exit_counter: 0 }
                    } else {
                        FsmState::Scrolling { game_counter: next, exit_counter: 0 }
                    }
                } else if score.lt(Binary64::from_bits(SCROLL_EXIT_THRESHOLD)) {
                    let next: u32 = exit_counter.saturating_add(1);
                    if next >= SCROLL_EXIT_DWELL {
                        FsmState::Work { scroll_counter: 0 }
                    } else {
                        FsmState::Scrolling { game_counter: 0, exit_counter: next }
                    }
                } else {
                    FsmState::Scrolling { game_counter: 0, exit_counter: 0 }
                }
            },
            FsmState::Game { exit_counter } => {
                if score.lt(Binary64::from_bits(GAME_EXIT_THRESHOLD)) {
                    let next: u32 = exit_counter.saturating_add(1);
                    if next >= GAME_EXIT_DWELL {
                        FsmState::Work { scroll_counter: 0 }
                    } else {
                        FsmState::Game { exit_counter: next }
                    }
                } else {
                    FsmState::Game { exit_counter: 0 }
                }
            },
        }
    }
}

/// The state before the first tick.
pub open spec fn initial_state() -> FsmState {
    FsmState::Work { scroll_counter: 0 }
}

/// The state after the first `n` ticks of a history of scores.
pub open spec fn state_at(scores: Seq<Binary64>, n: int) -> FsmState
    decreases n,
{
    if n <= 0 {
        initial_state()
    } else {
        next_state(state_at(scores, n - 1), scores[n - 1])
    }
}

/// The mode presented after the first `n` ticks.
pub open spec fn mode_at(scores: Seq<Binary64>, n: int) -> ContentMode {
    state_at(scores, n).presents()
}

/// Tick `n` moves the classifier into or out of Game.
pub open spec fn game_flips_at(scores: Seq<Binary64>, n: int) -> bool {
    (mode_at(scores, n - 1) is Game) != (mode_at(scores, n) is Game)
}

/// The counter that runs toward Game.
spec fn toward_game(state: FsmState) -> int {
    match state {
        FsmState::WorkToGame { counter } => counter as int,
        FsmState::Scrolling { game_counter, .. } => game_counter as int,
        _ => 0,
    }
}

/// The counter that runs out of Game.
spec fn out_of_game(state: FsmState) -> int {
    match state {
        FsmState::Game { exit_counter } => exit_counter as int,
        _ => 0,
    }
}

/// The counter that runs toward Scrolling.
spec fn toward_scrolling(state: FsmState) -> int {
    match state {
        FsmState::Work { scroll_counter } => scroll_counter as int,
        _ => 0,
    }
}

/// The counter that runs out of Scrolling.
spec fn out_of_scrolling(state: FsmState) -> int {
    match state {
        FsmState::Scrolling { exit_counter, .. } => exit_counter as int,
        _ => 0,
    }
}

/// Each counter is the length of a run of ticks that presses its way, ending at tick `n`.
proof fn lemma_counters_are_runs(scores: Seq<Binary64>, n: int)
    requires
        0 <= n <= scores.len(),
    ensures
        state_at(scores, n).wf(),
        0 <= toward_game(state_at(scores, n)) <= n,
        0 <= out_of_game(state_at(scores, n)) <= n,
        0 <= toward_scrolling(state_at(scores, n)) <= n,
        0 <= out_of_scrolling(state_at(scores, n)) <= n,
        forall|i: int|
            n - toward_game(state_at(scores, n)) <= i < n ==> in_game_band(#[trigger] scores[i]),
        forall|i: int|
            n - out_of_game(state_at(scores, n)) <= i < n ==> leaves_game(#[trigger] scores[i]),
        forall|i: int|
            n - toward_scrolling(state_at(scores, n)) <= i < n ==> in_scroll_band(
                #[trigger] scores[i],
            ),
        forall|i: int|
            n - out_of_scrolling(state_at(scores, n)) <= i < n ==> leaves_scrolling(
                #[trigger] scores[i],
            ),
    decreases n,
{
    if n > 0 {
        lemma_counters_are_runs(scores, n - 1);
    }
}

/// Every reachable state is well formed: in Scrolling, at most one of the two counters is
/// nonzero, and no counter has reached its dwell.
pub proof fn law_reachable_states_are_wf(scores: Seq<Binary64>, n: int)
    requires
        0 <= n <= scores.len(),
    ensures
        state_at(scores, n).wf(),
{
    lemma_counters_are_runs(scores, n);
}

/// Game is entered only at the end of a run of [`GAME_ENTER_DWELL`] ticks in the Game band.
pub proof fn law_game_entry_needs_dwell(scores: Seq<Binary64>, n: int, i: int)
    requires
        1 <= n <= scores.len(),
        mode_at(scores, n - 1) !is Game,
        mode_at(scores, n) is Game,
    ensures
        n >= GAME_ENTER_DWELL,
        n - GAME_ENTER_DWELL <= i < n ==> in_game_band(scores[i]),
{
    lemma_counters_are_runs(scores, n - 1);
}

/// Game is left only at the end of a run of [`GAME_EXIT_DWELL`] ticks below its exit threshold,
/// and what follows Game is Work.
pub proof fn law_game_exit_needs_dwell(scores: Seq<Binary64>, n: int, i: int)
    requires
        1 <= n <= scores.len(),
        mode_at(scores, n - 1) is Game,
        mode_at(scores, n) !is Game,
    ensures
        mode_at(scores, n) is Work,
        n >= GAME_EXIT_DWELL,
        n - GAME_EXIT_DWELL <= i < n ==> leaves_game(scores[i]),
{
    lemma_counters_are_runs(scores, n - 1);
}

/// Scrolling is entered only from Work, at the end of a run of [`SCROLL_ENTER_DWELL`] ticks in
/// the Scrolling band.
pub proof fn law_scroll_entry_needs_dwell(scores: Seq<Binary64>, n: int, i: int)
    requires
        1 <= n <= scores.len(),
        mode_at(scores, n - 1) !is Scrolling,
        mode_at(scores, n) is Scrolling,
    ensures
        mode_at(scores, n - 1) is Work,
        n >= SCROLL_ENTER_DWELL,
        n - SCROLL_ENTER_DWELL <= i < n ==> in_scroll_band(scores[i]),
{
    lemma_counters_are_runs(scores, n - 1);
}

/// Scrolling falls back to Work only at the end of a run of [`SCROLL_EXIT_DWELL`] ticks below
/// its exit threshold.
pub proof fn law_scroll_exit_needs_dwell(scores: Seq<Binary64>, n: int, i: int)
    requires
        1 <= n <= scores.len(),
        mode_at(scores, n - 1) is Scrolling,
        mode_at(scores, n) is Work,
    ensures
        n >= SCROLL_EXIT_DWELL,
        n - SCROLL_EXIT_DWELL <= i < n ==> leaves_scrolling(scores[i]),
{
    lemma_counters_are_runs(scores, n - 1);
}

/// A run of ticks in the Game band either reaches Game or counts every one of its ticks.
proof fn lemma_game_run_counts(scores: Seq<Binary64>, start: int, k: int)
    requires
        0 <= start,
        0 <= k,
        start + k <= scores.len(),
        forall|i: int| start <= i < start + k ==> in_game_band(#[trigger] scores[i]),
    ensures
        mode_at(scores, start + k) is Game || toward_game(state_at(scores, start + k)) >= k,
        k >= GAME_ENTER_DWELL ==> mode_at(scores, start + k) is Game,
    decreases k,
{
    if k > 0 {
        lemma_game_run_counts(scores, start, k - 1);
        lemma_counters_are_runs(scores, start + k - 1);
        assert(in_game_band(scores[start + k - 1]));
    } else {
        lemma_counters_are_runs(scores, start);
    }
}

/// [`GAME_ENTER_DWELL`] consecutive ticks in the Game band end in Game, wherever they start.
pub proof fn law_dwell_enters_game(scores: Seq<Binary64>, start: int)
    requires
        0 <= start,
        start + GAME_ENTER_DWELL <= scores.len(),
        forall|i: int|
            start <= i < start + GAME_ENTER_DWELL ==> in_game_band(#[trigger] scores[i]),
    ensures
        mode_at(scores, start + GAME_ENTER_DWELL) is Game,
{
    lemma_game_run_counts(scores, start, GAME_ENTER_DWELL as int);
}

/// A run of ticks below the Game exit threshold either was out of Game at some tick or counts
/// every one of its ticks.
proof fn lemma_exit_run_counts(scores: Seq<Binary64>, start: int, k: int)
    requires
        0 <= start,
        0 <= k,
        start + k <= scores.len(),
        forall|i: int| start <= i < start + k ==> leaves_game(#[trigger] scores[i]),
    ensures
        mode_at(scores, start + k) !is Game || out_of_game(state_at(scores, start + k)) >= k,
        k >= GAME_EXIT_DWELL ==> mode_at(scores, start + k) !is Game,
    decreases k,
{
    if k > 0 {
        lemma_exit_run_counts(scores, start, k - 1);
        lemma_counters_are_runs(scores, start + k - 1);
        assert(leaves_game(scores[start + k - 1]));
    } else {
        lemma_counters_are_runs(scores, start);
    }
}

/// [`GAME_EXIT_DWELL`] consecutive ticks below the Game exit threshold end outside Game.
pub proof fn law_dwell_leaves_game(scores: Seq<Binary64>, start: int)
    requires
        0 <= start,
        start + GAME_EXIT_DWELL <= scores.len(),
        forall|i: int| start <= i < start + GAME_EXIT_DWELL ==> leaves_game(#[trigger] scores[i]),
    ensures
        mode_at(scores, start + GAME_EXIT_DWELL) !is Game,
{
    lemma_exit_run_counts(scores, start, GAME_EXIT_DWELL as int);
}

/// Since a flip at tick `i`, neither counter has counted more than the ticks that passed.
proof fn lemma_counters_since_flip(scores: Seq<Binary64>, i: int, n: int)
    requires
        1 <= i <= n <= scores.len(),
        game_flips_at(scores, i),
    ensures
        toward_game(state_at(scores, n)) <= n - i,
        out_of_game(state_at(scores, n)) <= n - i,
    decreases n,
{
    lemma_counters_are_runs(scores, n - 1);
    if n > i {
        lemma_counters_since_flip(scores, i, n - 1);
    }
}

/// Anti-flap: any two ticks that move the classifier into or out of Game lie at least
/// [`GAME_ENTER_DWELL`] ticks apart, whatever the scores.
pub proof fn law_game_flips_are_apart(scores: Seq<Binary64>, i: int, j: int)
    requires
        1 <= i < j <= scores.len(),
        game_flips_at(scores, i),
        game_flips_at(scores, j),
    ensures
        j - i >= GAME_ENTER_DWELL,
{
    lemma_counters_since_flip(scores, i, j - 1);
    lemma_counters_are_runs(scores, j - 1);
}

/// A score inside the hysteresis band `[0.40, 0.65]` never moves the classifier into or out of
/// Game.
pub proof fn law_band_keeps_game(scores: Seq<Binary64>, n: int)
    requires
        1 <= n <= scores.len(),
        !in_game_band(scores[n - 1]),
        !leaves_game(scores[n - 1]),
    ensures
        !game_flips_at(scores, n),
{
}

/// Game is entered exactly when eight scores in a row are above 0.65.
pub proof fn law_game_is_entered_after_eight_high_scores(scores: Seq<Binary64>, n: int)
    requires
        1 <= n <= scores.len(),
        mode_at(scores, n - 1) !is Game,
    ensures
        mode_at(scores, n) is Game <==> n >= 8 && forall|i: int|
            n - 8 <= i < n ==> (Binary64 { bits: 0x3FE4_CCCC_CCCC_CCCD }).below(
                #[trigger] scores[i],
            ),
{
    if mode_at(scores, n) is Game {
        law_game_entry_needs_dwell(scores, n, n - 1);
        assert forall|i: int| n - 8 <= i < n implies (Binary64 {
            bits: 0x3FE4_CCCC_CCCC_CCCD,
        }).below(#[trigger] scores[i]) by {
            law_game_entry_needs_dwell(scores, n, i);
        }
    }
    if n >= 8 && forall|i: int|
        n - 8 <= i < n ==> (Binary64 { bits: 0x3FE4_CCCC_CCCC_CCCD }).below(#[trigger] scores[i]) {
        assert forall|i: int| n - 8 <= i < n implies in_game_band(#[trigger] scores[i]) by {}
        lemma_game_run_counts(scores, n - 8, 8);
    }
}

/// Game is left exactly when thirty scores in a row are below 0.40, and it is left for Work.
pub proof fn law_game_is_left_after_thirty_low_scores(scores: Seq<Binary64>, n: int)
    requires
        1 <= n <= scores.len(),
        mode_at(scores, n - 1) is Game,
    ensures
        mode_at(scores, n) !is Scrolling,
        mode_at(scores, n) is Work <==> n >= 30 && forall|i: int|
            n - 30 <= i < n ==> (#[trigger] scores[i]).below(
                Binary64 { bits: 0x3FD9_9999_9999_999A },
            ),
{
    if mode_at(scores, n) !is Game {
        law_game_exit_needs_dwell(scores, n, n - 1);
        assert forall|i: int| n - 30 <= i < n implies (#[trigger] scores[i]).below(
            Binary64 { bits: 0x3FD9_9999_9999_999A },
        ) by {
            law_game_exit_needs_dwell(scores, n, i);
        }
    }
    if n >= 30 && forall|i: int|
        n - 30 <= i < n ==> (#[trigger] scores[i]).below(Binary64 { bits: 0x3FD9_9999_9999_999A }) {
        assert forall|i: int| n - 30 <= i < n implies leaves_game(#[trigger] scores[i]) by {}
        lemma_exit_run_counts(scores, n - 30, 30);
    }
}

/// A run of ticks below the Scrolling exit threshold either was out of Scrolling at some tick or
/// counts every one of its ticks.
proof fn lemma_scroll_exit_run_counts(scores: Seq<Binary64>, start: int, k: int)
    requires
        0 <= start,
        0 <= k,
        start + k <= scores.len(),
        forall|i: int|
            start <= i < start + k ==> (#[trigger] scores[i]).below(
                Binary64 { bits: 0x3FD0_0000_0000_0000 },
            ),
    ensures
        mode_at(scores, start + k) !is Scrolling || out_of_scrolling(state_at(scores, start + k))
            >= k,
        k >= 10 ==> mode_at(scores, start + k) !is Scrolling,
    decreases k,
{
    if k > 0 {
        lemma_scroll_exit_run_counts(scores, start, k - 1);
        lemma_counters_are_runs(scores, start + k - 1);
        assert(scores[start + k - 1].below(Binary64 { bits: 0x3FD0_0000_0000_0000 }));
    } else {
        lemma_counters_are_runs(scores, start);
    }
}

/// Scrolling falls back to Work exactly when ten scores in a row are below 0.25.
pub proof fn law_scrolling_is_left_after_ten_low_scores(scores: Seq<Binary64>, n: int)
    requires
        1 <= n <= scores.len(),
        mode_at(scores, n - 1) is Scrolling,
    ensures
        mode_at(scores, n) is Work <==> n >= 10 && forall|i: int|
            n - 10 <= i < n ==> (#[trigger] scores[i]).below(
                Binary64 { bits: 0x3FD0_0000_0000_0000 },
            ),
{
    if mode_at(scores, n) is Work {
        law_scroll_exit_needs_dwell(scores, n, n - 1);
        assert forall|i: int| n - 10 <= i < n implies (#[trigger] scores[i]).below(
            Binary64 { bits: 0x3FD0_0000_0000_0000 },
        ) by {
            law_scroll_exit_needs_dwell(scores, n, i);
        }
    }
    if n >= 10 && forall|i: int|
        n - 10 <= i < n ==> (#[trigger] scores[i]).below(Binary64 { bits: 0x3FD0_0000_0000_0000 }) {
        lemma_scroll_exit_run_counts(scores, n - 10, 10);
        if mode_at(scores, n) is Game {
            law_game_entry_needs_dwell(scores, n, n - 1);
            assert(scores[n - 1].below(Binary64 { bits: 0x3FD0_0000_0000_0000 }));
        }
    }
}

/// Ten scores in a row below 0.25 end outside Scrolling, wherever they start.
pub proof fn law_static_screen_ends_scrolling(scores: Seq<Binary64>, start: int)
    requires
        0 <= start,
        start + 10 <= scores.len(),
        forall|i: int|
            start <= i < start + 10 ==> (#[trigger] scores[i]).below(
                Binary64 { bits: 0x3FD0_0000_0000_0000 },
            ),
    ensures
        mode_at(scores, start + 10) !is Scrolling,
{
    lemma_scroll_exit_run_counts(scores, start, 10);
}

/// The counter toward Scrolling has counted ticks in Work alone.
proof fn lemma_scroll_run_was_in_work(scores: Seq<Binary64>, n: int)
    requires
        0 <= n <= scores.len(),
    ensures
        forall|i: int|
            n - toward_scrolling(state_at(scores, n)) <= i < n ==> #[trigger] mode_at(scores, i)
                is Work,
    decreases n,
{
    if n > 0 {
        lemma_scroll_run_was_in_work(scores, n - 1);
        lemma_counters_are_runs(scores, n - 1);
    }
}

/// A run of ticks in Work with scores in the Scrolling band counts every one of its ticks.
proof fn lemma_scroll_run_counts(scores: Seq<Binary64>, start: int, k: int)
    requires
        0 <= start,
        0 <= k,
        start + k <= scores.len(),
        forall|i: int| start <= i < start + k ==> in_scroll_band(#[trigger] scores[i]),
        forall|i: int| start <= i < start + k ==> #[trigger] mode_at(scores, i) is Work,
    ensures
        mode_at(scores, start + k) is Scrolling || toward_scrolling(state_at(scores, start + k))
            >= k,
    decreases k,
{
    if k > 0 {
        lemma_scroll_run_counts(scores, start, k - 1);
        lemma_counters_are_runs(scores, start + k - 1);
        assert(in_scroll_band(scores[start + k - 1]));
        assert(mode_at(scores, start + k - 1) is Work);
    } else {
        lemma_counters_are_runs(scores, start);
    }
}

/// Scrolling is entered exactly when, in Work, four scores in a row are above 0.35 and not above
/// 0.65.
pub proof fn law_scrolling_is_entered_after_four_moderate_scores(scores: Seq<Binary64>, n: int)
    requires
        1 <= n <= scores.len(),
        mode_at(scores, n - 1) !is Scrolling,
    ensures
        mode_at(scores, n) is Scrolling <==> n >= 4 && (forall|i: int|
            n - 4 <= i < n ==> (Binary64 { bits: 0x3FD6_6666_6666_6666 }).below(
                #[trigger] scores[i],
            ) && !(Binary64 { bits: 0x3FE4_CCCC_CCCC_CCCD }).below(scores[i])) && (forall|i: int|
            n - 4 <= i < n ==> #[trigger] mode_at(scores, i) is Work),
{
    if mode_at(scores, n) is Scrolling {
        law_scroll_entry_needs_dwell(scores, n, n - 1);
        lemma_scroll_run_was_in_work(scores, n - 1);
        lemma_counters_are_runs(scores, n - 1);
        assert forall|i: int| n - 4 <= i < n implies (Binary64 {
            bits: 0x3FD6_6666_6666_6666,
        }).below(#[trigger] scores[i]) && !(Binary64 { bits: 0x3FE4_CCCC_CCCC_CCCD }).below(
            scores[i],
        ) by {
            law_scroll_entry_needs_dwell(scores, n, i);
        }
    }
    if n >= 4 && (forall|i: int|
        n - 4 <= i < n ==> (Binary64 { bits: 0x3FD6_6666_6666_6666 }).below(#[trigger] scores[i])
            && !(Binary64 { bits: 0x3FE4_CCCC_CCCC_CCCD }).below(scores[i])) && (forall|i: int|
        n - 4 <= i < n ==> #[trigger] mode_at(scores, i) is Work) {
        assert forall|i: int| n - 4 <= i < n implies in_scroll_band(#[trigger] scores[i]) by {}
        lemma_scroll_run_counts(scores, n - 4, 4);
        lemma_counters_are_runs(scores, n);
    }
}

/// A new classifier is in Work.
pub proof fn law_classifier_starts_in_work(scores: Seq<Binary64>)
    ensures
        mode_at(scores, 0) is Work,
{
}

/// One tick changes the mode only where a counter is one short of its dwell or beyond: eight for
/// Game, thirty out of it, four for Scrolling, ten out of it. A tick that presses another way or no
/// way starts the count over.
pub proof fn law_one_tick(state: FsmState, score: Binary64)
    ensures
        ({
            let next = next_state(state, score);
            let high = (Binary64 { bits: 0x3FE4_CCCC_CCCC_CCCD }).below(score);
            let moderate = !high && (Binary64 { bits: 0x3FD6_6666_6666_6666 }).below(score);
            let idle = score.below(Binary64 { bits: 0x3FD0_0000_0000_0000 });
            let low = score.below(Binary64 { bits: 0x3FD9_9999_9999_999A });
            match state {
                FsmState::Work { scroll_counter } => {
                    &&& next.presents() is Scrolling <==> moderate && scroll_counter >= 3
                    &&& next.presents() !is Game
                    &&& high ==> next == (FsmState::WorkToGame { counter: 1 })
                    &&& moderate && scroll_counter < 3 ==> next == (FsmState::Work {
                        scroll_counter: (scroll_counter + 1) as u32,
                    })
                    &&& !high && !moderate ==> next == (FsmState::Work { scroll_counter: 0 })
                },
                FsmState::WorkToGame { counter } => {
                    &&& next.presents() is Game <==> high && counter >= 7
                    &&& high && counter < 7 ==> next == (FsmState::WorkToGame {
                        counter: (counter + 1) as u32,
                    })
                    &&& moderate ==> next == (FsmState::Work { scroll_counter: 1 })
                    &&& !high && !moderate ==> next == (FsmState::Work { scroll_counter: 0 })
                },
                FsmState::Scrolling { game_counter, exit_counter } => {
                    &&& next.presents() is Game <==> high && game_counter >= 7
                    &&& next.presents() is Work <==> idle && exit_counter >= 9
                    &&& high && game_counter < 7 ==> next == (FsmState::Scrolling {
                        game_counter: (game_counter + 1) as u32,
                        exit_counter: 0,
                    })
                    &&& idle && exit_counter < 9 ==> next == (FsmState::Scrolling {
                        game_counter: 0,
                        exit_counter: (exit_counter + 1) as u32,
                    })
                    &&& !high && !idle ==> next == (FsmState::Scrolling {
                        game_counter: 0,
                        exit_counter: 0,
                    })
                },
                FsmState::Game { exit_counter } => {
                    &&& next.presents() !is Scrolling
                    &&& next.presents() is Work <==> low && exit_counter >= 29
                    &&& low && exit_counter < 29 ==> next == (FsmState::Game {
                        exit_counter: (exit_counter + 1) as u32,
                    })
                    &&& !low ==> next == (FsmState::Game { exit_counter: 0 })
                },
            }
        }),
        next_state(state, score).presents() != state.presents() ==> {
            ||| next_state(state, score) == (FsmState::Work { scroll_counter: 0 })
            ||| next_state(state, score) == (FsmState::Game { exit_counter: 0 })
            ||| next_state(state, score) == (FsmState::Scrolling {
                game_counter: 0,
                exit_counter: 0,
            })
        },
{
}

/// A signal between 0 and 1 is taken as it is; one below counts as 0, one above as 1, and what is
/// no number as 0. The class of a work application is 0, of a media application a half, of a game 1.
pub proof fn law_signals_are_kept_in_range(v: Binary64)
    ensures
        v.bits <= 0x3FF0_0000_0000_0000 ==> unit_of(v) == v,
        v.nan() ==> unit_of(v).bits == 0,
        v.below(Binary64 { bits: 0 }) ==> unit_of(v).bits == 0,
        (Binary64 { bits: 0x3FF0_0000_0000_0000 }).below(v) ==> unit_of(v).bits
            == 0x3FF0_0000_0000_0000,
        AppClass::Work.signal().bits == 0,
        AppClass::Media.signal().bits == 0x3FE0_0000_0000_0000,
        AppClass::Game.signal().bits == 0x3FF0_0000_0000_0000,
{
}

} // verus!
