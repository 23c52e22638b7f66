use streamhaul::binary64::Binary64;
use streamhaul::classifier::{
    AppClass, ContentClassifier, ContentMode, FsmState, Score, ScoreProvider, Signals,
    GAME_ENTER_DWELL, GAME_ENTER_THRESHOLD, GAME_EXIT_DWELL, GAME_EXIT_THRESHOLD,
    SCROLL_ENTER_DWELL, SCROLL_ENTER_THRESHOLD, SCROLL_EXIT_DWELL, SCROLL_EXIT_THRESHOLD,
};

const WEIGHT_A: f64 = 0.45;
const WEIGHT_B: f64 = 0.30;
const WEIGHT_C: f64 = 0.15;
const WEIGHT_D: f64 = 0.10;

fn num(v: f64) -> Binary64 {
    Binary64::from_bits(v.to_bits())
}

fn float(v: Binary64) -> f64 {
    f64::from_bits(v.to_bits())
}

fn signals(a: f64, b: f64, c: f64, d: f64) -> Signals {
    Signals::new(num(a), num(b), num(c), num(d))
}

fn from_raw(a: f64, b: f64, class: AppClass, fullscreen: bool, velocity_px_s: f64) -> Signals {
    Signals::from_raw(num(a), num(b), class, fullscreen, num(velocity_px_s / 2000.0))
}

/// The weighted sum of the signals.
struct HeuristicScoreProvider;

impl ScoreProvider for HeuristicScoreProvider {
    fn rates(&self, signals: Signals) -> Score {
        self.score(&signals)
    }

    fn score(&self, s: &Signals) -> Score {
        Score::new(num(
            WEIGHT_A * float(s.a) + WEIGHT_B * float(s.b) + WEIGHT_C * float(s.c) + WEIGHT_D * float(s.d),
        ))
    }
}

// ── Helper constructors ───────────────────────────────────────────────────

fn heuristic() -> ContentClassifier {
    ContentClassifier::new(Box::new(HeuristicScoreProvider))
}

/// Synthesize `Signals` that the `HeuristicScoreProvider` maps to approximately `target`.
///
/// Uses a greedy A→B→C→D fill. Due to floating-point rounding the reconstructed score may
/// differ from `target` by a tiny amount (~1e-16). Do NOT use this helper with values that
/// exactly equal a threshold (0.65, 0.40, 0.35, 0.25) — use a `FixedScoreProvider` or
/// hand-crafted `Signals` for boundary-condition tests.
fn make_signals_for_score(target: f64) -> Signals {
    // A alone can cover up to 0.45. Use A=1.0 and B to cover the rest up to 0.75.
    // B alone can cover 0.30 more. C alone 0.15, D 0.10.
    // Strategy: fill greedily A→B→C→D.
    let a = (target / WEIGHT_A).min(1.0);
    let remaining = target - WEIGHT_A * a;
    let b = (remaining / WEIGHT_B).clamp(0.0, 1.0);
    let remaining2 = remaining - WEIGHT_B * b;
    let c = (remaining2 / WEIGHT_C).clamp(0.0, 1.0);
    let remaining3 = remaining2 - WEIGHT_C * c;
    let d = (remaining3 / WEIGHT_D).clamp(0.0, 1.0);
    signals(a, b, c, d)
}

/// A trivial `ScoreProvider` that always returns the same fixed score, used to pin boundary
/// conditions at exact threshold values that floating-point arithmetic cannot reach reliably
/// via `make_signals_for_score`.
struct FixedScoreProvider(f64);
impl ScoreProvider for FixedScoreProvider {
    fn rates(&self, signals: Signals) -> Score {
        self.score(&signals)
    }

    fn score(&self, _signals: &Signals) -> Score {
        Score::new(num(self.0))
    }
}

fn fixed_clf(score: f64) -> ContentClassifier {
    ContentClassifier::new(Box::new(FixedScoreProvider(score)))
}

fn run_ticks(clf: &mut ContentClassifier, signals: &Signals, n: u32) -> ContentMode {
    let mut mode = ContentMode::Work;
    for _ in 0..n {
        mode = clf.on_tick(signals);
    }
    mode
}

// ── Score math ────────────────────────────────────────────────────────────

#[test]
fn weighted_sum_all_ones() {
    let p = HeuristicScoreProvider;
    let s = signals(1.0, 1.0, 1.0, 1.0);
    let score = p.score(&s);
    assert!(
        (float(score.as_binary64()) - 1.0).abs() < 1e-9,
        "all-ones score should be 1.0, got {:?}",
        score
    );
}

#[test]
fn weighted_sum_all_zeros() {
    let p = HeuristicScoreProvider;
    let s = signals(0.0, 0.0, 0.0, 0.0);
    assert_eq!(float(p.score(&s).as_binary64()), 0.0);
}

#[test]
fn weighted_sum_known_value() {
    let p = HeuristicScoreProvider;
    // A=0.8, B=0.6, C=0.4, D=0.2
    // score = 0.45*0.8 + 0.30*0.6 + 0.15*0.4 + 0.10*0.2
    //       = 0.36 + 0.18 + 0.06 + 0.02 = 0.62
    let s = signals(0.8, 0.6, 0.4, 0.2);
    let score = p.score(&s);
    assert!(
        (float(score.as_binary64()) - 0.62).abs() < 1e-9,
        "expected 0.62 got {:?}",
        score
    );
}

#[test]
fn signals_clamp_out_of_range() {
    let s = signals(2.0, -1.0, 1.5, -0.5);
    assert_eq!(float(s.a), 1.0);
    assert_eq!(float(s.b), 0.0);
    assert_eq!(float(s.c), 1.0);
    assert_eq!(float(s.d), 0.0);
}

#[test]
fn signals_clamping_does_not_panic_on_nan() {
    // NaN inputs are defined to produce 0.0 (not panic, not produce NaN).
    let s = signals(f64::NAN, f64::NAN, f64::NAN, f64::NAN);
    assert_eq!(float(s.a), 0.0, "NaN signal A should become 0.0");
    assert_eq!(float(s.b), 0.0, "NaN signal B should become 0.0");
    assert_eq!(float(s.c), 0.0, "NaN signal C should become 0.0");
    assert_eq!(float(s.d), 0.0, "NaN signal D should become 0.0");
}

#[test]
fn fullscreen_exclusive_overrides_app_class() {
    // Even with AppClass::Work, fullscreen_exclusive forces C = 1.0.
    let s = from_raw(0.0, 0.0, AppClass::Work, true, 0.0);
    assert_eq!(float(s.c), 1.0, "fullscreen exclusive must set C=1.0");
}

#[test]
fn app_class_scalars() {
    assert_eq!(float(AppClass::Work.to_signal_c()), 0.0);
    assert_eq!(float(AppClass::Media.to_signal_c()), 0.5);
    assert_eq!(float(AppClass::Game.to_signal_c()), 1.0);
}

#[test]
fn cursor_velocity_normalization() {
    // 2000 px/s → 1.0; 1000 px/s → 0.5; 4000 px/s → 1.0 (clamped).
    let s2000 = from_raw(0.0, 0.0, AppClass::Work, false, 2000.0);
    assert!((float(s2000.d) - 1.0).abs() < 1e-9, "2000 px/s should give D=1.0");

    let s1000 = from_raw(0.0, 0.0, AppClass::Work, false, 1000.0);
    assert!((float(s1000.d) - 0.5).abs() < 1e-9, "1000 px/s should give D=0.5");

    let s4000 = from_raw(0.0, 0.0, AppClass::Work, false, 4000.0);
    assert_eq!(float(s4000.d), 1.0, "4000 px/s should be clamped to D=1.0");

    // Negative velocity → clamped to 0.
    let s_neg = from_raw(0.0, 0.0, AppClass::Work, false, -100.0);
    assert_eq!(float(s_neg.d), 0.0, "negative velocity should give D=0.0");
}

#[test]
fn score_newtype_clamps_nan() {
    let s = Score::new(num(f64::NAN));
    assert_eq!(float(s.as_binary64()), 0.0);
}

#[test]
fn score_newtype_clamps_out_of_range() {
    assert_eq!(float(Score::new(num(2.0)).as_binary64()), 1.0);
    assert_eq!(float(Score::new(num(-1.0)).as_binary64()), 0.0);
}

// ── Game enter dwell ──────────────────────────────────────────────────────

/// 7 ticks above the Game entry threshold must NOT enter Game mode.
#[test]
fn game_enter_dwell_7_ticks_not_game() {
    let mut clf = heuristic();
    // Score well above GAME_ENTER_THRESHOLD (0.65): use all-ones (score = 1.0).
    let high = signals(1.0, 1.0, 1.0, 1.0);
    let mode = run_ticks(&mut clf, &high, GAME_ENTER_DWELL - 1);
    assert_ne!(
        mode,
        ContentMode::Game,
        "should NOT be Game after only {} ticks (need {})",
        GAME_ENTER_DWELL - 1,
        GAME_ENTER_DWELL
    );
}

/// 8 ticks above the Game entry threshold must enter Game mode.
#[test]
fn game_enter_dwell_8_ticks_is_game() {
    let mut clf = heuristic();
    let high = signals(1.0, 1.0, 1.0, 1.0);
    let mode = run_ticks(&mut clf, &high, GAME_ENTER_DWELL);
    assert_eq!(
        mode,
        ContentMode::Game,
        "should be Game after exactly {} ticks",
        GAME_ENTER_DWELL
    );
}

// ── Game exit dwell ───────────────────────────────────────────────────────

fn enter_game(clf: &mut ContentClassifier) {
    let high = signals(1.0, 1.0, 1.0, 1.0);
    run_ticks(clf, &high, GAME_ENTER_DWELL);
    assert_eq!(clf.current_mode(), ContentMode::Game);
}

/// In Game mode, 29 ticks below the exit threshold must NOT leave Game mode.
#[test]
fn game_exit_dwell_29_ticks_still_game() {
    let mut clf = heuristic();
    enter_game(&mut clf);
    // Score well below GAME_EXIT_THRESHOLD (0.40): use all-zeros (score = 0.0).
    let low = signals(0.0, 0.0, 0.0, 0.0);
    let mode = run_ticks(&mut clf, &low, GAME_EXIT_DWELL - 1);
    assert_eq!(
        mode,
        ContentMode::Game,
        "should still be Game after only {} ticks below exit threshold",
        GAME_EXIT_DWELL - 1
    );
}

/// In Game mode, 30 ticks below the exit threshold must leave Game mode.
#[test]
fn game_exit_dwell_30_ticks_leaves_game() {
    let mut clf = heuristic();
    enter_game(&mut clf);
    let low = signals(0.0, 0.0, 0.0, 0.0);
    let mode = run_ticks(&mut clf, &low, GAME_EXIT_DWELL);
    assert_ne!(
        mode,
        ContentMode::Game,
        "should have left Game after {} ticks below exit threshold",
        GAME_EXIT_DWELL
    );
}

// ── Anti-flapping tests ───────────────────────────────────────────────────

/// Brief alt-tab: score drops below 0.40 for 29 ticks then recovers — must stay in Game.
#[test]
fn brief_alt_tab_stays_in_game() {
    let mut clf = heuristic();
    enter_game(&mut clf);

    let low = signals(0.0, 0.0, 0.0, 0.0);
    let high = signals(1.0, 1.0, 1.0, 1.0);

    // 29 ticks below exit threshold (one short of exiting).
    run_ticks(&mut clf, &low, GAME_EXIT_DWELL - 1);
    assert_eq!(
        clf.current_mode(),
        ContentMode::Game,
        "still Game after 29 low ticks"
    );

    // Score recovers — counter resets.
    clf.on_tick(&high);
    assert_eq!(
        clf.current_mode(),
        ContentMode::Game,
        "still Game after recovery"
    );

    // Another 29 ticks below — still should not exit.
    run_ticks(&mut clf, &low, GAME_EXIT_DWELL - 1);
    assert_eq!(
        clf.current_mode(),
        ContentMode::Game,
        "still Game after second dip"
    );
}

/// Oscillating score around the Game enter threshold (0.65) must NOT cause rapid transitions.
#[test]
fn oscillating_score_around_enter_threshold_no_flap() {
    let mut clf = heuristic();
    // Alternate between score just above and just below GAME_ENTER_THRESHOLD.
    // Above: A=1.0 → score = 0.45 < 0.65. Need more. A=1.0,B=1.0 → 0.75 > 0.65.
    let above = make_signals_for_score(0.70); // above 0.65
    let below = make_signals_for_score(0.60); // below 0.65

    let mut transitions = 0u32;
    let mut last_mode = ContentMode::Work;

    for i in 0..60 {
        let s = if i % 2 == 0 { &above } else { &below };
        let m = clf.on_tick(s);
        if m != last_mode {
            transitions = transitions.saturating_add(1);
            last_mode = m;
        }
    }
    // With oscillation, the Game entry dwell (8) can never be met — zero transitions.
    assert_eq!(
        transitions, 0,
        "no transitions expected with alternating above/below Game enter threshold"
    );
}

/// Oscillating score around the Game exit threshold (0.40) in Game mode must NOT flap.
#[test]
fn oscillating_score_around_exit_threshold_no_flap() {
    let mut clf = heuristic();
    enter_game(&mut clf);

    let above_exit = make_signals_for_score(0.50); // above GAME_EXIT_THRESHOLD
    let below_exit = make_signals_for_score(0.30); // below GAME_EXIT_THRESHOLD

    let mut transitions = 0u32;
    let mut last_mode = ContentMode::Game;

    for i in 0..100 {
        let s = if i % 2 == 0 { &above_exit } else { &below_exit };
        let m = clf.on_tick(s);
        if m != last_mode {
            transitions = transitions.saturating_add(1);
            last_mode = m;
        }
    }
    // With alternating ticks, the exit dwell (30) can never be met — zero transitions.
    assert_eq!(
        transitions, 0,
        "no transitions expected with alternating ticks around Game exit threshold"
    );
}

// ── Scrolling transitions ─────────────────────────────────────────────────

#[test]
fn scroll_enter_dwell_3_ticks_not_scrolling() {
    let mut clf = heuristic();
    // Score in Scrolling band (above SCROLL_ENTER_THRESHOLD=0.35, below GAME_ENTER_THRESHOLD=0.65).
    let scroll_score = make_signals_for_score(0.50);
    let mode = run_ticks(&mut clf, &scroll_score, SCROLL_ENTER_DWELL - 1);
    assert_ne!(
        mode,
        ContentMode::Scrolling,
        "should NOT be Scrolling after only {} ticks",
        SCROLL_ENTER_DWELL - 1
    );
}

#[test]
fn scroll_enter_dwell_4_ticks_is_scrolling() {
    let mut clf = heuristic();
    let scroll_score = make_signals_for_score(0.50);
    let mode = run_ticks(&mut clf, &scroll_score, SCROLL_ENTER_DWELL);
    assert_eq!(
        mode,
        ContentMode::Scrolling,
        "should be Scrolling after exactly {} ticks",
        SCROLL_ENTER_DWELL
    );
}

#[test]
fn scroll_exit_dwell_9_ticks_still_scrolling() {
    let mut clf = heuristic();
    // Enter Scrolling first.
    let scroll_score = make_signals_for_score(0.50);
    run_ticks(&mut clf, &scroll_score, SCROLL_ENTER_DWELL);
    assert_eq!(clf.current_mode(), ContentMode::Scrolling);

    // Score drops below SCROLL_EXIT_THRESHOLD (0.25).
    let work_score = make_signals_for_score(0.10);
    let mode = run_ticks(&mut clf, &work_score, SCROLL_EXIT_DWELL - 1);
    assert_eq!(
        mode,
        ContentMode::Scrolling,
        "should still be Scrolling after only {} ticks below exit threshold",
        SCROLL_EXIT_DWELL - 1
    );
}

#[test]
fn scroll_exit_dwell_10_ticks_leaves_scrolling() {
    let mut clf = heuristic();
    let scroll_score = make_signals_for_score(0.50);
    run_ticks(&mut clf, &scroll_score, SCROLL_ENTER_DWELL);
    assert_eq!(clf.current_mode(), ContentMode::Scrolling);

    let work_score = make_signals_for_score(0.10);
    let mode = run_ticks(&mut clf, &work_score, SCROLL_EXIT_DWELL);
    assert_ne!(
        mode,
        ContentMode::Scrolling,
        "should have left Scrolling after {} ticks below exit threshold",
        SCROLL_EXIT_DWELL
    );
}

/// Oscillating score around Scrolling entry threshold must not cause rapid Scrolling↔Work flaps.
#[test]
fn oscillating_around_scroll_entry_no_flap() {
    let mut clf = heuristic();
    let above = make_signals_for_score(0.40); // above SCROLL_ENTER_THRESHOLD
    let below = make_signals_for_score(0.20); // below SCROLL_ENTER_THRESHOLD

    let mut transitions = 0u32;
    let mut last_mode = ContentMode::Work;

    for i in 0..60 {
        let s = if i % 2 == 0 { &above } else { &below };
        let m = clf.on_tick(s);
        if m != last_mode {
            transitions = transitions.saturating_add(1);
            last_mode = m;
        }
    }
    assert_eq!(
        transitions, 0,
        "no transitions expected with alternating above/below Scrolling entry threshold"
    );
}

// ── Scrolling→Game transition ─────────────────────────────────────────────

/// 7 high-score ticks from Scrolling must NOT enter Game.
#[test]
fn scrolling_to_game_dwell_7_ticks_not_game() {
    let mut clf = heuristic();
    // Enter Scrolling.
    let scroll_score = make_signals_for_score(0.50);
    run_ticks(&mut clf, &scroll_score, SCROLL_ENTER_DWELL);
    assert_eq!(clf.current_mode(), ContentMode::Scrolling);

    // 7 ticks above GAME_ENTER_THRESHOLD from Scrolling — one short of the dwell.
    let high = signals(1.0, 1.0, 1.0, 1.0);
    let mode = run_ticks(&mut clf, &high, GAME_ENTER_DWELL - 1);
    assert_ne!(
        mode,
        ContentMode::Game,
        "should NOT enter Game after only {} ticks above threshold from Scrolling",
        GAME_ENTER_DWELL - 1
    );
}

/// 8 high-score ticks from Scrolling must enter Game.
#[test]
fn scrolling_to_game_dwell_8_ticks_is_game() {
    let mut clf = heuristic();
    // Enter Scrolling.
    let scroll_score = make_signals_for_score(0.50);
    run_ticks(&mut clf, &scroll_score, SCROLL_ENTER_DWELL);
    assert_eq!(clf.current_mode(), ContentMode::Scrolling);

    // 8 ticks above GAME_ENTER_THRESHOLD from Scrolling — should fire.
    let high = signals(1.0, 1.0, 1.0, 1.0);
    let mode = run_ticks(&mut clf, &high, GAME_ENTER_DWELL);
    assert_eq!(
        mode,
        ContentMode::Game,
        "should enter Game after exactly {} ticks above threshold from Scrolling",
        GAME_ENTER_DWELL
    );
}

// ── Threshold boundary conditions ─────────────────────────────────────────

/// A score exactly equal to GAME_ENTER_THRESHOLD (0.65) must NOT trigger Game entry.
#[test]
fn score_exactly_at_game_enter_threshold_does_not_enter_game() {
    // Use FixedScoreProvider to hit exactly 0.65 — unreachable via make_signals_for_score.
    let mut clf = fixed_clf(f64::from_bits(GAME_ENTER_THRESHOLD));
    // Run many ticks; mode should stabilize at Scrolling, never reaching Game.
    run_ticks(
        &mut clf,
        &signals(0.0, 0.0, 0.0, 0.0),
        SCROLL_ENTER_DWELL,
    );
    // Score is exactly 0.65 for all subsequent ticks — enter Scrolling, not Game.
    let mode = run_ticks(
        &mut clf,
        &signals(0.0, 0.0, 0.0, 0.0),
        GAME_ENTER_DWELL * 2,
    );
    assert_ne!(
        mode,
        ContentMode::Game,
        "score == GAME_ENTER_THRESHOLD (0.65) must not enter Game (strict > required)"
    );
}

/// A score exactly equal to GAME_EXIT_THRESHOLD (0.40) must NOT trigger Game exit.
#[test]
fn score_exactly_at_game_exit_threshold_does_not_exit_game() {
    // Test the FSM pure transition function directly with score == 0.40 exactly.
    // When score == GAME_EXIT_THRESHOLD, the condition `score < GAME_EXIT_THRESHOLD` is false,
    // so the exit counter resets to zero — no progress toward leaving Game.
    let next =
        ContentClassifier::advance(FsmState::Game { exit_counter: 5 }, Binary64::from_bits(GAME_EXIT_THRESHOLD));
    assert_eq!(
        next,
        FsmState::Game { exit_counter: 0 },
        "score == 0.40 must reset exit counter (stable, strict < required)"
    );

    // Also verify via the heuristic: sustained 0.40 in Game for many ticks never exits.
    let mut clf = heuristic();
    enter_game(&mut clf);
    let at_threshold = make_signals_for_score(0.40);
    let score_actual = float(HeuristicScoreProvider.score(&at_threshold).as_binary64());
    // make_signals_for_score may produce a value slightly above 0.40 due to float rounding;
    // either way, a score >= GAME_EXIT_THRESHOLD must not trigger exit.
    if score_actual >= f64::from_bits(GAME_EXIT_THRESHOLD) {
        run_ticks(&mut clf, &at_threshold, GAME_EXIT_DWELL * 2);
        assert_eq!(
            clf.current_mode(),
            ContentMode::Game,
            "score >= 0.40 (score_actual={:.6}) must not exit Game",
            score_actual
        );
    }
}

// ── Work→Game→Work transition trace ──────────────────────────────────────

/// Full round-trip: Work→Game (8 ticks) → brief dip (29 ticks, stays Game) → exit (30 more).
#[test]
fn work_to_game_to_work_round_trip_with_trace() {
    let mut clf = heuristic();
    let high = signals(1.0, 1.0, 1.0, 1.0); // score = 1.0
    let low = signals(0.0, 0.0, 0.0, 0.0); // score = 0.0

    let mut trace = Vec::new();

    // Phase 1: 8 ticks → Game.
    for t in 1..=8u32 {
        let m = clf.on_tick(&high);
        trace.push((t, m));
    }
    assert_eq!(
        clf.current_mode(),
        ContentMode::Game,
        "should be Game at tick 8"
    );

    // Phase 2: 29 ticks low → stays in Game.
    for t in 9..=37u32 {
        let m = clf.on_tick(&low);
        trace.push((t, m));
    }
    assert_eq!(
        clf.current_mode(),
        ContentMode::Game,
        "should still be Game after 29 low ticks"
    );

    // Phase 3: 1 tick high (reset exit counter).
    let m = clf.on_tick(&high);
    trace.push((38, m));

    // Phase 4: 30 ticks low → exits Game.
    for t in 39..=68u32 {
        let m = clf.on_tick(&low);
        trace.push((t, m));
    }
    let final_mode = clf.current_mode();
    assert_ne!(
        final_mode,
        ContentMode::Game,
        "should have left Game after 30 sustained low ticks"
    );

    // Print trace for --nocapture verification.
    println!("Work→Game→Work mode trace:");
    for (tick, mode) in &trace {
        println!("  tick {:>3}: {}", tick, mode.to_text());
    }
    println!("  Final mode: {}", final_mode.to_text());
}

#[test]
fn thresholds_are_the_documented_numbers() {
    assert_eq!(f64::from_bits(GAME_ENTER_THRESHOLD), 0.65);
    assert_eq!(f64::from_bits(GAME_EXIT_THRESHOLD), 0.40);
    assert_eq!(f64::from_bits(SCROLL_ENTER_THRESHOLD), 0.35);
    assert_eq!(f64::from_bits(SCROLL_EXIT_THRESHOLD), 0.25);
}

#[test]
fn mode_names() {
    assert_eq!(ContentMode::Work.to_text(), "Work");
    assert_eq!(ContentMode::Scrolling.to_text(), "Scrolling");
    assert_eq!(ContentMode::Game.to_text(), "Game");
}

/// A plain generator, so that every run sees the same scores.
fn pseudo_scores(seed: u64, n: usize) -> Vec<f64> {
    let mut x = seed;
    let mut out = Vec::new();
    for _ in 0..n {
        x = x.wrapping_mul(6364136223846793005).wrapping_add(1442695040888963407);
        out.push((x >> 11) as f64 / (1u64 << 53) as f64);
    }
    out
}

#[test]
fn game_flips_are_apart_for_every_sequence() {
    for seed in 0..50u64 {
        let mut clf = heuristic();
        let mut flips: Vec<usize> = Vec::new();
        let mut last = ContentMode::Work;
        // Hold each score for a while, so that dwells are reached.
        for (block, v) in pseudo_scores(seed, 40).iter().enumerate() {
            let held = 1 + (seed as usize + block * 7) % 40;
            for i in 0..held {
                let mode = clf.on_tick(&make_signals_for_score(*v));
                if (mode == ContentMode::Game) != (last == ContentMode::Game) {
                    flips.push(block * 100 + i);
                }
                last = mode;
            }
        }
        for pair in flips.windows(2) {
            assert!(pair[1] - pair[0] >= GAME_ENTER_DWELL as usize);
        }
    }
}

#[test]
fn arbitrary_signals_end_up_in_range() {
    for v in [-10.0, -0.0, 0.0, 0.3, 1.0, 1.0000001, 10.0, f64::INFINITY, f64::NEG_INFINITY, f64::NAN] {
        let s = signals(v, v, v, v);
        for x in [s.a, s.b, s.c, s.d] {
            assert!((0.0..=1.0).contains(&float(x)), "{v}");
        }
        assert!((0.0..=1.0).contains(&float(HeuristicScoreProvider.score(&s).as_binary64())));
        let d = float(from_raw(0.0, 0.0, AppClass::Work, false, v * 1000.0).d);
        assert!((0.0..=1.0).contains(&d), "{v}");
    }
}

#[test]
fn scores_given_directly_drive_the_same_machine() {
    let mut by_score = heuristic();
    let mut by_signal = heuristic();
    for v in pseudo_scores(3, 500) {
        let s = make_signals_for_score(v);
        let score = HeuristicScoreProvider.score(&s);
        assert_eq!(by_score.on_score(score), by_signal.on_tick(&s));
    }
}
