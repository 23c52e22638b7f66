use streamhaul::binary64::Binary64;
use streamhaul::loss_recovery::{
    compute_period, determine_action, FecPolicy, FecPolicyConfig, GapDetector,
    LossRecoveryController, LossState, NackRequest, RecoveryAction, RollingIntraRefresh,
};
use streamhaul::time::{Duration, Instant};

fn num(v: f64) -> Binary64 {
    Binary64::from_bits(v.to_bits())
}

fn float(v: Binary64) -> f64 {
    f64::from_bits(v.to_bits())
}

fn origin() -> Instant {
    Instant::at(Duration::from_secs(1_000))
}

#[derive(Debug)]
struct TraceStep {
    label: &'static str,
    rtt_ms: u64,
    consecutive_loss: u32,
    loss_5s: f64,
    frame_gap: u32,
    fec_ratio: f64,
    missing_seqs: Vec<u16>,
    time_since_keyframe_s: u64,
    /// How many ms after the prior step (for suppression window simulation).
    delta_ms: u64,
    expected: RecoveryAction,
}

// ── LossRecoveryController tests ──────────────────────────────────────────

fn make_state(
    rtt_ms: u64,
    consecutive_loss: u32,
    loss_5s: f64,
    frame_gap: u32,
    fec_ratio: f64,
    missing_seqs: Vec<u16>,
) -> LossState {
    LossState {
        rtt: Duration::from_millis(rtt_ms),
        consecutive_loss,
        loss_5s: num(loss_5s),
        frame_gap,
        time_since_keyframe: Duration::from_secs(1),
        fec_ratio: num(fec_ratio),
        missing_seqs,
    }
}

#[test]
fn test_low_rtt_nack_action() {
    let mut ctrl = LossRecoveryController::new();
    let state = make_state(30, 1, 0.01, 1, 0.05, vec![99]);
    let now = origin();
    let action = ctrl.on_feedback(&state, now);
    assert_eq!(action, RecoveryAction::Nack(vec![NackRequest { seq: 99 }]));
}

#[test]
fn test_moderate_loss_rely_on_fec() {
    let mut ctrl = LossRecoveryController::new();
    // RTT=80ms < 100ms band, consecutive_loss=0 → no missing_seqs ⇒ NACK tier skipped.
    // loss_5s=0.02 < fec_ratio=0.10 and frame_gap=0 ≤ 1 → RelyOnFec.
    let state = make_state(80, 0, 0.02, 0, 0.10, vec![]);
    let now = origin();
    let action = ctrl.on_feedback(&state, now);
    assert_eq!(action, RecoveryAction::RelyOnFec);
}

#[test]
fn test_frame_gap_3_forces_idr() {
    let mut ctrl = LossRecoveryController::new();
    let state = make_state(80, 0, 0.0, 3, 0.05, vec![]);
    let now = origin();
    let action = ctrl.on_feedback(&state, now);
    assert_eq!(action, RecoveryAction::ForcedIdr);
}

#[test]
fn test_high_loss_forces_idr() {
    let mut ctrl = LossRecoveryController::new();
    // loss_5s = 0.06 >= FEC_LOSS_THRESHOLD (0.05) → ForcedIdr regardless of frame_gap.
    let state = make_state(80, 0, 0.06, 0, 0.05, vec![]);
    let now = origin();
    let action = ctrl.on_feedback(&state, now);
    assert_eq!(action, RecoveryAction::ForcedIdr);
}

#[test]
fn test_idr_suppression_within_window() {
    let mut ctrl = LossRecoveryController::new();
    // RTT = 50 ms → suppress_window = max(500ms, 2×50ms) = 500 ms.
    let state = make_state(50, 0, 0.06, 3, 0.05, vec![]);
    let t0 = origin();

    // First call: triggers IDR.
    let action1 = ctrl.on_feedback(&state, t0);
    assert_eq!(action1, RecoveryAction::ForcedIdr);

    // Second call: within 500 ms window → suppressed.
    let t1 = t0.checked_add(Duration::from_millis(100)).unwrap();
    let action2 = ctrl.on_feedback(&state, t1);
    assert_eq!(action2, RecoveryAction::NoAction);
}

#[test]
fn test_idr_suppression_expiry() {
    let mut ctrl = LossRecoveryController::new();
    // RTT = 50 ms → suppress_window = 500 ms.
    let state = make_state(50, 0, 0.06, 3, 0.05, vec![]);
    let t0 = origin();

    // First call: triggers IDR.
    ctrl.on_feedback(&state, t0);

    // After 600 ms (past the 500 ms window): IDR allowed again.
    let t1 = t0.checked_add(Duration::from_millis(600)).unwrap();
    let action = ctrl.on_feedback(&state, t1);
    assert_eq!(action, RecoveryAction::ForcedIdr);
}

#[test]
fn test_idr_suppression_uses_max_of_500ms_and_2rtt() {
    let mut ctrl = LossRecoveryController::new();
    // RTT = 400 ms → suppress_window = max(500ms, 800ms) = 800 ms.
    let state = make_state(400, 0, 0.06, 3, 0.05, vec![]);
    let t0 = origin();

    // First call: triggers IDR.
    ctrl.on_feedback(&state, t0);

    // At t0 + 700 ms: still within 800 ms window → None.
    let t1 = t0.checked_add(Duration::from_millis(700)).unwrap();
    let action1 = ctrl.on_feedback(&state, t1);
    assert_eq!(action1, RecoveryAction::NoAction);

    // At t0 + 900 ms: past 800 ms window → ForcedIdr again.
    let t2 = t0.checked_add(Duration::from_millis(900)).unwrap();
    let action2 = ctrl.on_feedback(&state, t2);
    assert_eq!(action2, RecoveryAction::ForcedIdr);
}

#[test]
fn test_rtt_band_150_300_skips_nack() {
    let mut ctrl = LossRecoveryController::new();
    // RTT = 200 ms → skip NACK tier; FEC covers if loss_5s < fec_ratio.
    // frame_gap=1, loss_5s=0.01 < fec_ratio=0.10 → RelyOnFec (not Nack despite missing_seqs).
    let mut state = make_state(200, 1, 0.01, 1, 0.10, vec![99]);
    state.time_since_keyframe = Duration::from_secs(1);
    let now = origin();
    let action = ctrl.on_feedback(&state, now);
    // RTT=200ms hits (rtt >= 200ms && loss_5s > 0.0) → ForcedIdr.
    assert_eq!(action, RecoveryAction::ForcedIdr);
}

#[test]
fn test_rtt_band_150_300_fec_when_no_loss() {
    let mut ctrl = LossRecoveryController::new();
    // RTT = 200 ms, loss_5s = 0.0 → no loss_5s > 0.0 condition.
    // frame_gap=1 < IDR_FRAME_GAP_THRESHOLD_MID(2) → no IDR from gap.
    // loss_5s=0.0 < fec_ratio=0.10 → RelyOnFec.
    let state = make_state(200, 1, 0.0, 1, 0.10, vec![99]);
    let now = origin();
    let action = ctrl.on_feedback(&state, now);
    assert_eq!(action, RecoveryAction::RelyOnFec);
}

#[test]
fn test_rtt_band_above_300_idr_on_any_freeze() {
    let mut ctrl = LossRecoveryController::new();
    // RTT = 350 ms > RTT_HIGH(300ms), frame_gap = 1 ≥ 1 → ForcedIdr.
    let state = make_state(350, 0, 0.0, 1, 0.10, vec![]);
    let now = origin();
    let action = ctrl.on_feedback(&state, now);
    assert_eq!(action, RecoveryAction::ForcedIdr);
}

#[test]
fn test_stale_keyframe_forces_idr() {
    let mut ctrl = LossRecoveryController::new();
    // time_since_keyframe = 11s > MAX_KEYFRAME_AGE(10s), loss_5s = 0.015 > 0.01 → ForcedIdr.
    let mut state = make_state(80, 0, 0.015, 0, 0.05, vec![]);
    state.time_since_keyframe = Duration::from_secs(11);
    let now = origin();
    let action = ctrl.on_feedback(&state, now);
    assert_eq!(action, RecoveryAction::ForcedIdr);
}

// ── RollingIntraRefresh tests ─────────────────────────────────────────────

#[test]
fn test_rolling_intra_refresh_covers_full_frame() {
    // fps=30: period = ceil(30/4) = ceil(7.5) = 8.
    let mut rir = RollingIntraRefresh::new(30);
    assert_eq!(rir.period(), 8);

    let mut stripes: Vec<u32> = (0..8).map(|_| rir.advance().stripe_index).collect();
    stripes.sort_unstable();
    assert_eq!(stripes, (0u32..8).collect::<Vec<_>>());

    // After 8 calls, wraps back to 0.
    assert_eq!(rir.advance().stripe_index, 0);
}

#[test]
fn test_rolling_intra_refresh_fps_change() {
    // fps=60: period = ceil(60/4) = 15.
    let mut rir = RollingIntraRefresh::new(60);
    assert_eq!(rir.period(), 15);

    // Advance 3 frames.
    rir.advance();
    rir.advance();
    rir.advance();
    assert_eq!(rir.advance().stripe_index, 3);

    // Change to fps=30: period=8, stripe resets to 0.
    rir.set_fps(30);
    assert_eq!(rir.period(), 8);
    assert_eq!(rir.advance().stripe_index, 0);
}

// ── GapDetector tests ─────────────────────────────────────────────────────

#[test]
fn test_gap_detector_in_order() {
    let mut gd = GapDetector::new();
    for seq in [1u16, 2, 3] {
        let report = gd.on_receive(seq);
        assert_eq!(report.consecutive_loss, 0);
        assert_eq!(report.nack_bitmap, 0);
        assert!(report.missing_seqs.is_empty());
    }
    let last = gd.on_receive(3);
    assert_eq!(last.frame_gap, 0);
}

#[test]
fn test_gap_detector_single_drop() {
    let mut gd = GapDetector::new();
    gd.on_receive(1);
    gd.on_receive(2);
    let report = gd.on_receive(4); // seq 3 is missing

    // We received 4 (highest), so frame_gap = 0.
    assert_eq!(report.frame_gap, 0);
    // Seq 3 = highest-1 is missing → nack_bitmap bit 0 = 1.
    assert_eq!(report.nack_bitmap & 1, 1);
    assert!(report.missing_seqs.contains(&3));
    // Seq 2 = highest-2 was received → not in missing_seqs.
    assert!(!report.missing_seqs.contains(&2));
}

#[test]
fn test_gap_detector_consecutive_drop() {
    let mut gd = GapDetector::new();
    gd.on_receive(1);
    gd.on_receive(2);
    let report = gd.on_receive(5); // seqs 3 and 4 are missing

    assert_eq!(report.frame_gap, 0);
    // Bits 0 (seq 4) and 1 (seq 3) should be missing.
    assert_eq!(report.nack_bitmap & 0b11, 0b11);
    assert_eq!(report.consecutive_loss, 2);
    assert!(report.missing_seqs.contains(&4));
    assert!(report.missing_seqs.contains(&3));
}

// ── FecPolicy tests ───────────────────────────────────────────────────────

#[test]
fn test_fec_policy_ratios() {
    let policy = FecPolicy::new(FecPolicyConfig::default());

    // Loss 0.0 (clean) → 0.05
    assert!((float(policy.target_ratio(num(0.0))) - 0.05).abs() < 1e-9);
    // Loss 0.005 (< 1%) → 0.05
    assert!((float(policy.target_ratio(num(0.005))) - 0.05).abs() < 1e-9);
    // Loss 0.01 (boundary, ≤ 1%) → 0.05
    assert!((float(policy.target_ratio(num(0.01))) - 0.05).abs() < 1e-9);
    // Loss 0.02 (1–3% band) → 0.10
    assert!((float(policy.target_ratio(num(0.02))) - 0.10).abs() < 1e-9);
    // Loss 0.04 (3–5% band) → 0.20
    assert!((float(policy.target_ratio(num(0.04))) - 0.20).abs() < 1e-9);
    // Loss 0.07 (5–10% band) → 0.30
    assert!((float(policy.target_ratio(num(0.07))) - 0.30).abs() < 1e-9);
    // Loss 0.15 (> 10%) → 0.50
    assert!((float(policy.target_ratio(num(0.15))) - 0.50).abs() < 1e-9);
    // Loss > 1.0 (clamped) → 0.50
    assert!((float(policy.target_ratio(num(2.0))) - 0.50).abs() < 1e-9);
}

/// Prints an escalation trace demonstrating NACK → FEC → IDR transitions across RTT bands and
/// the IDR suppression window. Run with `--nocapture` to see the trace.
#[test]
fn escalation_trace() {

    let steps: &[TraceStep] = &[
        TraceStep {
            label: "low-RTT single loss → NACK (<50ms band)",
            rtt_ms: 30,
            consecutive_loss: 1,
            loss_5s: 0.01,
            frame_gap: 1,
            fec_ratio: 0.05,
            missing_seqs: vec![100],
            time_since_keyframe_s: 1,
            delta_ms: 0,
            expected: RecoveryAction::Nack(vec![NackRequest { seq: 100 }]),
        },
        TraceStep {
            label: "low-RTT moderate loss FEC covers → RelyOnFec",
            rtt_ms: 80,
            consecutive_loss: 0,
            loss_5s: 0.02,
            frame_gap: 0,
            fec_ratio: 0.10,
            missing_seqs: vec![],
            time_since_keyframe_s: 1,
            delta_ms: 50,
            expected: RecoveryAction::RelyOnFec,
        },
        TraceStep {
            label: "moderate-RTT (150–300ms) skip-NACK, 0 loss → RelyOnFec",
            rtt_ms: 200,
            consecutive_loss: 1,
            loss_5s: 0.0,
            frame_gap: 1,
            fec_ratio: 0.10,
            missing_seqs: vec![101],
            time_since_keyframe_s: 1,
            delta_ms: 50,
            expected: RecoveryAction::RelyOnFec,
        },
        TraceStep {
            label: "frame_gap=3 → ForcedIdr (gap threshold)",
            rtt_ms: 80,
            consecutive_loss: 3,
            loss_5s: 0.03,
            frame_gap: 3,
            fec_ratio: 0.05,
            missing_seqs: vec![],
            time_since_keyframe_s: 1,
            delta_ms: 50,
            expected: RecoveryAction::ForcedIdr,
        },
        TraceStep {
            label: "IDR suppressed (within 500ms window after prev IDR)",
            rtt_ms: 80,
            consecutive_loss: 3,
            loss_5s: 0.06,
            frame_gap: 3,
            fec_ratio: 0.05,
            missing_seqs: vec![],
            time_since_keyframe_s: 1,
            delta_ms: 100,
            expected: RecoveryAction::NoAction,
        },
        TraceStep {
            label: "IDR suppression expired → ForcedIdr again (loss_5s=6%)",
            rtt_ms: 80,
            consecutive_loss: 3,
            loss_5s: 0.06,
            frame_gap: 3,
            fec_ratio: 0.05,
            missing_seqs: vec![],
            time_since_keyframe_s: 1,
            delta_ms: 600,
            expected: RecoveryAction::ForcedIdr,
        },
        TraceStep {
            label: "high-RTT >300ms, frame_gap=1 → ForcedIdr (any freeze)",
            rtt_ms: 350,
            consecutive_loss: 0,
            loss_5s: 0.0,
            frame_gap: 1,
            fec_ratio: 0.05,
            missing_seqs: vec![],
            time_since_keyframe_s: 1,
            delta_ms: 2000,
            expected: RecoveryAction::ForcedIdr,
        },
    ];

    let mut ctrl = LossRecoveryController::new();
    let mut now = origin();

    println!("\n=== Loss Recovery Escalation Trace ===");
    println!(
        "{:<60} {:>8} {:>6} {:>6} {:>6} | {:?}",
        "Step", "RTT(ms)", "loss5s", "gap", "consec", "Action"
    );
    println!("{}", "-".repeat(110));

    for step in steps {
        now = now
            .checked_add(Duration::from_millis(step.delta_ms))
            .unwrap_or(now);
        let state = LossState {
            rtt: Duration::from_millis(step.rtt_ms),
            consecutive_loss: step.consecutive_loss,
            loss_5s: num(step.loss_5s),
            frame_gap: step.frame_gap,
            fec_ratio: num(step.fec_ratio),
            missing_seqs: step.missing_seqs.clone(),
            time_since_keyframe: Duration::from_secs(step.time_since_keyframe_s),
        };
        let action = ctrl.on_feedback(&state, now);
        assert_eq!(action, step.expected, "{}", step.label);
        println!(
            "{:<60} {:>8} {:>6.3} {:>6} {:>6} | {:?}",
            step.label,
            step.rtt_ms,
            step.loss_5s,
            step.frame_gap,
            step.consecutive_loss,
            action,
        );
    }
    println!("=== end of trace ===\n");
}

#[test]
fn gap_detector_ignores_what_came_before() {
    let mut gd = GapDetector::new();
    gd.on_receive(10);
    let report = gd.on_receive(9);
    assert_eq!(report.frame_gap, 1);
    assert_eq!(report.nack_bitmap, 0);
    assert!(report.missing_seqs.is_empty());
    let again = gd.on_receive(9);
    assert_eq!(again, report);
}

#[test]
fn gap_detector_wraps_around() {
    let mut gd = GapDetector::new();
    gd.on_receive(65534);
    let report = gd.on_receive(1);
    assert_eq!(report.missing_seqs, vec![0, 65535]);
    assert_eq!(report.consecutive_loss, 2);
    let filled = gd.on_receive(0);
    assert_eq!(filled.missing_seqs, vec![65535]);
}

#[test]
fn gap_detector_looks_back_sixteen_at_most() {
    let mut gd = GapDetector::new();
    gd.on_receive(100);
    let report = gd.on_receive(200);
    assert_eq!(report.nack_bitmap, 0xFFFF);
    assert_eq!(report.missing_seqs.len(), 16);
    assert_eq!(report.consecutive_loss, 16);
    assert!(report.missing_seqs.contains(&199) && report.missing_seqs.contains(&184));
}

#[test]
fn long_round_trips_never_nack() {
    for rtt in [150u64, 151, 250, 300, 301, 1_000] {
        let state = make_state(rtt, 1, 0.0, 0, 0.0, vec![7]);
        assert!(
            !matches!(determine_action(&state), RecoveryAction::Nack(_)),
            "rtt {rtt}"
        );
    }
    let state = make_state(149, 1, 0.0, 0, 0.0, vec![7]);
    assert_eq!(determine_action(&state), RecoveryAction::Nack(vec![NackRequest { seq: 7 }]));
}

#[test]
fn bursts_are_not_nacked() {
    let state = make_state(30, 3, 0.0, 0, 0.0, vec![7, 8, 9]);
    assert!(!matches!(determine_action(&state), RecoveryAction::Nack(_)));
}

#[test]
fn forced_idrs_are_apart() {
    let mut ctrl = LossRecoveryController::new();
    let state = make_state(50, 0, 0.06, 3, 0.05, vec![]);
    let mut last: Option<u64> = None;
    for ms in (0..5_000u64).step_by(7) {
        let now = origin().checked_add(Duration::from_millis(ms)).unwrap();
        if ctrl.on_feedback(&state, now) == RecoveryAction::ForcedIdr {
            if let Some(then) = last {
                assert!(ms - then >= 500);
            }
            last = Some(ms);
        }
    }
    assert!(last.is_some());
}

#[test]
fn suppression_counts_down() {
    let mut ctrl = LossRecoveryController::new();
    let rtt = Duration::from_millis(50);
    assert_eq!(ctrl.suppression_remaining(rtt, origin()), None);
    let state = make_state(50, 0, 0.06, 3, 0.05, vec![]);
    ctrl.on_feedback(&state, origin());
    let later = origin().checked_add(Duration::from_millis(200)).unwrap();
    assert_eq!(
        ctrl.suppression_remaining(rtt, later),
        Some(Duration::from_millis(300))
    );
    let at = |ms: u64| origin().checked_add(Duration::from_millis(ms)).unwrap();
    assert_eq!(ctrl.suppression_remaining(rtt, at(400)), Some(Duration::from_millis(100)));
    assert_eq!(ctrl.suppression_remaining(rtt, at(499)), Some(Duration::from_millis(1)));
    assert_eq!(ctrl.suppression_remaining(rtt, at(500)), None);
    assert_eq!(ctrl.suppression_remaining(rtt, at(501)), None);
    assert_eq!(ctrl.on_feedback(&state, at(499)), RecoveryAction::NoAction);
    assert_eq!(ctrl.on_feedback(&state, at(500)), RecoveryAction::ForcedIdr);
}

#[test]
fn fec_ratio_never_falls_as_loss_grows() {
    let policy = FecPolicy::new(FecPolicyConfig::default());
    let mut last = 0.0;
    for i in 0..=2_000 {
        let ratio = float(policy.target_ratio(num(f64::from(i) / 1_000.0)));
        assert!(ratio >= last);
        last = ratio;
    }
}

#[test]
fn period_rounds_up() {
    assert_eq!(compute_period(0), 1);
    assert_eq!(compute_period(1), 1);
    assert_eq!(compute_period(4), 1);
    assert_eq!(compute_period(5), 2);
    assert_eq!(compute_period(144), 36);
    assert_eq!(compute_period(u32::MAX), 1 << 30);
    let rir = RollingIntraRefresh::new(24);
    assert_eq!(rir.fps(), 24);
}

#[test]
fn the_middle_band_reaches_to_three_hundred_milliseconds() {
    let at = |rtt: u64, gap: u32| {
        LossRecoveryController::new().on_feedback(
            &make_state(rtt, 0, 0.0, gap, 0.10, vec![]),
            Instant::at(Duration::from_secs(1_000)),
        )
    };
    assert_eq!(at(149, 2), RecoveryAction::NoAction);
    assert_eq!(at(150, 2), RecoveryAction::ForcedIdr);
    assert_eq!(at(150, 1), RecoveryAction::RelyOnFec);
    assert_eq!(at(300, 2), RecoveryAction::ForcedIdr);
    assert_eq!(at(300, 1), RecoveryAction::RelyOnFec);
    assert_eq!(at(301, 1), RecoveryAction::ForcedIdr);
}
