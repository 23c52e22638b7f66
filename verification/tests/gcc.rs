use std::time::Duration;

use streamhaul::binary64::Binary64;
use streamhaul::bitrate::Bitrate;
use streamhaul::controller::{rtt_sample, Gate};
use streamhaul::gcc::{self, EstimateStep, GccConfig};
use streamhaul::{stats, time};

/// A point of simulated time.
#[derive(Debug, Clone, Copy, PartialEq)]
struct Instant(Duration);

impl Instant {
    fn now() -> Self {
        Instant(Duration::from_secs(1_000))
    }

    fn at(self) -> time::Instant {
        time::Instant::at(span(self.0))
    }
}

impl std::ops::Add<Duration> for Instant {
    type Output = Instant;

    fn add(self, d: Duration) -> Instant {
        Instant(self.0 + d)
    }
}

impl std::ops::Sub<Duration> for Instant {
    type Output = Instant;

    fn sub(self, d: Duration) -> Instant {
        Instant(self.0 - d)
    }
}

impl std::ops::AddAssign<Duration> for Instant {
    fn add_assign(&mut self, d: Duration) {
        self.0 += d;
    }
}

fn span(d: Duration) -> time::Duration {
    time::Duration::new(d.as_secs(), d.subsec_nanos())
}

fn secs(d: time::Duration) -> f64 {
    Duration::from_nanos(d.as_nanos() as u64).as_secs_f64()
}

fn num(v: f64) -> Binary64 {
    Binary64::from_bits(v.to_bits())
}

/// A rate as a floating-point number.
trait Bps {
    fn as_bps_f64(self) -> f64;
}

impl Bps for Bitrate {
    fn as_bps_f64(self) -> f64 {
        self.as_bps() as f64
    }
}

/// A feedback report in the units of the simulation.
#[derive(Debug, Clone, Copy)]
struct TransportStats {
    rtt: Duration,
    queue_delay: Duration,
    bytes_acked: u32,
    bytes_lost: u32,
    loss_fraction_q8: u8,
    interval: Duration,
}

impl TransportStats {
    fn report(&self) -> stats::TransportStats {
        stats::TransportStats {
            rtt: span(self.rtt),
            queue_delay: span(self.queue_delay),
            bytes_acked: self.bytes_acked,
            bytes_lost: self.bytes_lost,
            loss_fraction_q8: self.loss_fraction_q8,
            interval: span(self.interval),
        }
    }
}

const MAX_QUEUE_DELAY: Duration = Duration::from_secs(2);

/// Reports of every kind, plausible and not, from a plain generator.
fn feedbacks(seed: u64, n: usize) -> Vec<TransportStats> {
    let mut x = seed.wrapping_add(0x9E37_79B9_7F4A_7C15);
    let mut next = |bound: u64| {
        x = x.wrapping_mul(6364136223846793005).wrapping_add(1442695040888963407);
        (x >> 16) % (bound + 1)
    };
    let mut out = Vec::new();
    for _ in 0..n {
        out.push(TransportStats {
            rtt: Duration::from_micros(next(10_000_000)),
            queue_delay: Duration::from_micros(next(2_000_000)),
            bytes_acked: next(1_000_000) as u32,
            bytes_lost: next(2_000_000) as u32,
            loss_fraction_q8: next(255) as u8,
            interval: Duration::from_millis(1 + next(99)),
        });
    }
    out
}

/// A network simulator with an accumulating bottleneck queue model.
///
/// Tracks a virtual queue in bytes that fills when send rate exceeds the link capacity and
/// drains at line rate. Queue delay is computed as queue_bytes / drain_rate. Tail-drop
/// occurs when the queue exceeds `max_queue_bytes` (≈200 ms of buffering at cap).
struct NetSim {
    /// Available bandwidth (bits per second).
    cap_bps: f64,
    /// Fixed propagation delay (one-way); RTT = 2 × prop_delay.
    prop_delay: Duration,
    /// Fractional packet loss rate (0.0 = no loss, 1.0 = 100% loss).
    loss_rate: f64,
    /// Synthetic clock: monotonically incremented.
    clock: Instant,
    /// Clock step per simulated feedback interval.
    step: Duration,
    /// Accumulated bottleneck queue in bytes.
    queue_bytes: f64,
    /// Maximum buffer before tail-drop (bytes). At cap, ≈200 ms of buffering.
    max_queue_bytes: f64,
}

impl NetSim {
    fn new(cap_kbps: u64, prop_delay_ms: u64, loss_rate: f64) -> Self {
        let clock = Instant::now();
        let cap_bps = f64::from(u32::try_from(cap_kbps).unwrap_or(u32::MAX)) * 1_000.0;
        // 200 ms buffer at cap
        let max_queue_bytes = cap_bps * 0.200 / 8.0;
        Self {
            cap_bps,
            prop_delay: Duration::from_millis(prop_delay_ms),
            loss_rate: loss_rate.clamp(0.0, 1.0),
            clock,
            step: Duration::from_millis(10),
            queue_bytes: 0.0,
            max_queue_bytes,
        }
    }

    /// Advance time by one step and return a `TransportStats` for the current state.
    fn tick(&mut self, send_rate_bps: f64) -> (Instant, TransportStats) {
        self.clock += self.step;
        let step_secs = self.step.as_secs_f64();
        let rtt = self.prop_delay.saturating_mul(2);

        let ingress = (send_rate_bps * step_secs / 8.0).max(0.0);
        let egress = (self.cap_bps * step_secs / 8.0).max(0.0);

        self.queue_bytes = (self.queue_bytes + ingress - egress).max(0.0);
        self.queue_bytes = self.queue_bytes.min(self.max_queue_bytes);

        let queue_delay_secs = if self.cap_bps > 0.0 {
            (self.queue_bytes * 8.0 / self.cap_bps).min(MAX_QUEUE_DELAY.as_secs_f64())
        } else {
            MAX_QUEUE_DELAY.as_secs_f64()
        };

        let bytes_acked = (egress * (1.0 - self.loss_rate)) as u32;
        let bytes_lost = (egress * self.loss_rate) as u32;

        let fb = TransportStats {
            rtt,
            queue_delay: Duration::from_secs_f64(queue_delay_secs),
            bytes_acked,
            bytes_lost,
            loss_fraction_q8: 0,
            interval: self.step,
        };
        (self.clock, fb)
    }
}

/// A controller with its estimates.
struct GccController {
    core: gcc::GccController,
    srtt: f64,
    estimate: f64,
}

impl GccController {
    fn new(config: GccConfig) -> Self {
        let core = gcc::GccController::new(config);
        let estimate = core.target_bitrate().as_bps_f64();
        let srtt = secs(stats::clamp_rtt(config.initial_rtt));
        GccController { core, srtt, estimate }
    }

    fn with_defaults() -> Self {
        Self::new(GccConfig::default())
    }

    fn on_feedback(&mut self, fb: &TransportStats, now: Instant) {
        let now = now.at();
        let config = self.core.config();
        match self.core.open_feedback(now) {
            Gate::Ignore => return,
            Gate::Restart => {
                self.estimate = self.core.target_bitrate().as_bps_f64();
                self.srtt = secs(stats::clamp_rtt(config.initial_rtt));
                return;
            }
            Gate::Proceed => {}
        }
        let fb = fb.report();
        if let Some(rtt) = rtt_sample(&fb) {
            self.srtt = 0.875 * self.srtt + 0.125 * secs(rtt);
        }
        let near_cap = 0.9 * config.max_bitrate.as_bps_f64();
        let window = span(Duration::from_secs_f64(self.srtt.max(0.000_100)));
        let reaction = self.core.react(&fb, now, window, num(self.estimate), num(near_cap));
        let next = match reaction.step {
            EstimateStep::Keep => self.estimate,
            EstimateStep::BackOff => self.estimate * 0.85,
            EstimateStep::GrowFast => self.estimate * 1.08,
            EstimateStep::GrowSlow => self.estimate + 8_000.0,
        };
        if next.is_finite() {
            self.estimate = next;
        }
        let raw = if reaction.cap_for_loss {
            self.estimate.min(self.estimate * 0.85)
        } else {
            self.estimate
        };
        self.core.settle(num(raw));
    }

    fn target_bitrate(&self) -> Bitrate {
        self.core.target_bitrate()
    }

    fn pacing_interval(&self) -> Duration {
        Duration::from_nanos(self.core.pacing_interval().as_nanos() as u64)
    }
}

// ── Core behaviour tests ──────────────────────────────────────────────────

/// Test: target_bitrate is always within [min, max], even after many iterations.
#[test]
fn gcc_target_always_within_bounds() {
    let cfg = GccConfig {
        min_bitrate: Bitrate::from_kbps(100),
        max_bitrate: Bitrate::from_mbps(50),
        ..GccConfig::default()
    };
    let mut ctrl = GccController::new(cfg);
    let mut sim = NetSim::new(5_000, 20, 0.0);

    for _ in 0..200 {
        let send_bps = ctrl.target_bitrate().as_bps_f64();
        let (now, fb) = sim.tick(send_bps);
        ctrl.on_feedback(&fb, now);
        let target = ctrl.target_bitrate();
        assert!(
            target >= cfg.min_bitrate,
            "target {target:?} < min {:?}",
            cfg.min_bitrate
        );
        assert!(
            target <= cfg.max_bitrate,
            "target {target:?} > max {:?}",
            cfg.max_bitrate
        );
    }
}

/// Test: controller converges toward the available bandwidth cap.
///
/// After enough steps, target_bitrate should be within [80%, 120%] of the cap.
/// GCC warms up differently from SCReAM (no slow-start), so we use a wider band.
#[test]
fn gcc_converges_toward_cap() {
    let cap_kbps = 5_000u64;
    let mut ctrl = GccController::with_defaults();
    let mut sim = NetSim::new(cap_kbps, 20, 0.0);

    for _ in 0..500 {
        let send_bps = ctrl.target_bitrate().as_bps_f64();
        let (now, fb) = sim.tick(send_bps);
        ctrl.on_feedback(&fb, now);
    }

    let final_kbps = ctrl.target_bitrate().as_kbps();
    let low = cap_kbps * 80 / 100; // 80%
    let high = cap_kbps * 120 / 100; // 120%
    println!(
        "[converges_toward_cap] cap={cap_kbps:?} kbps, final={final_kbps:?} kbps  (band: [{low:?},{high:?}])"
    );
    assert!(
        final_kbps >= low,
        "controller failed to ramp up: {final_kbps:?} kbps < {low:?} kbps"
    );
    assert!(
        final_kbps <= high,
        "controller overshot too much: {final_kbps:?} kbps > {high:?} kbps"
    );
}

/// Test: backs off when queue delay exceeds overuse threshold.
#[test]
fn backs_off_on_delay_overuse() {
    let mut ctrl = GccController::with_defaults();
    let mut sim = NetSim::new(5_000, 20, 0.0);

    // Let the controller ramp up first; track the last sim timestamp.
    let mut last_now = sim.clock;
    for _ in 0..200 {
        let send_bps = ctrl.target_bitrate().as_bps_f64();
        let (now, fb) = sim.tick(send_bps);
        ctrl.on_feedback(&fb, now);
        last_now = now;
    }
    let before_overuse = ctrl.target_bitrate().as_kbps();
    println!("[backs_off_on_delay_overuse] before overuse: {before_overuse:?} kbps");

    // Inject several overuse feedbacks; at least one will clear the decrease-suppression
    // window (which is bounded by SRTT ≈ 40ms). We space them 20ms apart over 200ms.
    let overuse_fb = TransportStats {
        rtt: Duration::from_millis(40),
        queue_delay: Duration::from_millis(50), // well above OVERUSE_THRESHOLD (25ms)
        bytes_acked: 1_000,
        bytes_lost: 0,
        loss_fraction_q8: 0,
        interval: Duration::from_millis(20),
    };
    for i in 1u64..=10 {
        ctrl.on_feedback(&overuse_fb, last_now + Duration::from_millis(20 * i));
    }
    let after_overuse = ctrl.target_bitrate().as_kbps();
    println!(
        "[backs_off_on_delay_overuse] before={before_overuse:?} kbps, after={after_overuse:?} kbps"
    );
    assert!(
        after_overuse < before_overuse,
        "expected backoff on overuse: before={before_overuse:?}, after={after_overuse:?}"
    );
}

/// Test: recovers / ramps when bandwidth cap rises.
#[test]
fn gcc_recovers_on_cap_rise() {
    let mut ctrl = GccController::with_defaults();
    let mut sim = NetSim::new(2_000, 20, 0.0); // 2 Mbps initially

    // Phase 1: converge at low cap.
    for _ in 0..200 {
        let send_bps = ctrl.target_bitrate().as_bps_f64();
        let (now, fb) = sim.tick(send_bps);
        ctrl.on_feedback(&fb, now);
    }
    let at_low_cap = ctrl.target_bitrate().as_kbps();
    println!("[recovers_on_cap_rise] at low cap (2 Mbps): {at_low_cap:?} kbps");

    // Phase 2: raise cap to 8 Mbps and run 300 more steps.
    sim.cap_bps = 8_000.0 * 1_000.0;
    sim.max_queue_bytes = sim.cap_bps * 0.200 / 8.0;
    for _ in 0..300 {
        let send_bps = ctrl.target_bitrate().as_bps_f64();
        let (now, fb) = sim.tick(send_bps);
        ctrl.on_feedback(&fb, now);
    }
    let at_high_cap = ctrl.target_bitrate().as_kbps();
    println!("[recovers_on_cap_rise] at high cap (8 Mbps): {at_high_cap:?} kbps");
    assert!(
        at_high_cap > at_low_cap,
        "expected ramp: at_low={at_low_cap:?}, at_high={at_high_cap:?}"
    );
}

/// Test: pacing_interval is always positive and finite.
#[test]
fn gcc_pacing_interval_always_positive() {
    let mut ctrl = GccController::with_defaults();
    let mut sim = NetSim::new(5_000, 20, 0.0);
    for _ in 0..100 {
        let send_bps = ctrl.target_bitrate().as_bps_f64();
        let (now, fb) = sim.tick(send_bps);
        ctrl.on_feedback(&fb, now);
        let pi = ctrl.pacing_interval();
        assert!(
            pi >= Duration::from_micros(1),
            "pacing_interval too small: {pi:?}"
        );
        assert!(
            pi.as_secs_f64().is_finite(),
            "pacing_interval not finite: {pi:?}"
        );
    }
}

/// Test: non-monotonic `now` is silently ignored (no panic, no state corruption).
#[test]
fn gcc_non_monotonic_now_is_ignored() {
    let mut ctrl = GccController::with_defaults();
    let mut sim = NetSim::new(5_000, 20, 0.0);
    let (t0, fb0) = sim.tick(ctrl.target_bitrate().as_bps_f64());
    ctrl.on_feedback(&fb0, t0);
    let rate_after_first = ctrl.target_bitrate();

    // Feed an earlier timestamp — should be ignored.
    let early_now = t0 - Duration::from_millis(1);
    ctrl.on_feedback(&fb0, early_now);
    // State should be unchanged.
    assert_eq!(ctrl.target_bitrate(), rate_after_first);
}

/// Test: zero-RTT feedback does not crash and preserves bounds.
#[test]
fn gcc_zero_rtt_feedback_is_safe() {
    let mut ctrl = GccController::with_defaults();
    let mut sim = NetSim::new(5_000, 20, 0.0);
    let (mut now, mut fb) = sim.tick(ctrl.target_bitrate().as_bps_f64());
    fb.rtt = Duration::ZERO;
    ctrl.on_feedback(&fb, now);
    for _ in 0..10 {
        let (n, f) = sim.tick(ctrl.target_bitrate().as_bps_f64());
        now = n;
        fb = f;
        fb.rtt = Duration::ZERO;
        ctrl.on_feedback(&fb, now);
    }
    let t = ctrl.target_bitrate();
    let cfg = GccConfig::default();
    assert!(t >= cfg.min_bitrate && t <= cfg.max_bitrate);
}

/// Test: bytes_lost > bytes_acked is handled gracefully.
#[test]
fn gcc_bytes_lost_exceeds_acked_is_safe() {
    let mut ctrl = GccController::with_defaults();
    let mut sim = NetSim::new(5_000, 20, 0.0);
    let (t0, _) = sim.tick(0.0);
    let fb = TransportStats {
        rtt: Duration::from_millis(20),
        queue_delay: Duration::ZERO,
        bytes_acked: 100,
        bytes_lost: 50_000, // More lost than acked
        loss_fraction_q8: 0,
        interval: Duration::from_millis(10),
    };
    ctrl.on_feedback(&fb, t0);
    let t = ctrl.target_bitrate();
    let cfg = GccConfig::default();
    assert!(t >= cfg.min_bitrate && t <= cfg.max_bitrate);
}

/// Test: convergence summary printed with --nocapture (shows bandwidth tracking up/down).
#[test]
fn gcc_bandwidth_convergence_summary() {
    println!("\n=== GCC bandwidth convergence summary ===");
    let mut ctrl = GccController::with_defaults();
    let cfg = GccConfig::default();

    let scenarios: &[(&str, u64, u64)] = &[
        ("Phase 1: ramp to 5 Mbps cap", 5_000, 200),
        ("Phase 2: stay at 5 Mbps", 5_000, 100),
        ("Phase 3: cap drops to 1 Mbps", 1_000, 150),
        ("Phase 4: cap rises to 8 Mbps", 8_000, 250),
        ("Phase 5: cap drops to 2 Mbps", 2_000, 150),
    ];

    let mut sim = NetSim::new(5_000, 20, 0.0);

    for (label, cap_kbps, steps) in scenarios {
        sim.cap_bps = (*cap_kbps as f64) * 1_000.0;
        sim.queue_bytes = 0.0;
        sim.max_queue_bytes = sim.cap_bps * 0.200 / 8.0;
        for i in 0..*steps {
            let send_bps = ctrl.target_bitrate().as_bps_f64();
            let (now, fb) = sim.tick(send_bps);
            let queue_ms = fb.queue_delay.as_secs_f64() * 1000.0;
            ctrl.on_feedback(&fb, now);
            if i % 50 == 49 || i == steps - 1 {
                println!(
                    "  {label:?} [step {:>3}]: cap={cap_kbps:?} kbps  target={:?} kbps  queue={queue_ms:.1}ms",
                    i + 1,
                    ctrl.target_bitrate().as_kbps(),
                );
            }
        }
        let final_rate = ctrl.target_bitrate();
        assert!(final_rate >= cfg.min_bitrate, "below min: {:?}", final_rate);
        assert!(final_rate <= cfg.max_bitrate, "above max: {:?}", final_rate);
    }
    println!("=== end of convergence summary ===\n");
}

#[test]
fn gcc_bounds_hold_for_every_feedback() {
    for seed in 0..200u64 {
        let cfg = GccConfig::default();
        let mut ctrl = GccController::new(cfg);
        let mut now = Instant::now();
        for (i, fb) in feedbacks(seed, 50).iter().enumerate() {
            now += Duration::from_millis((10 + seed % 90) * (i as u64 + 1));
            ctrl.on_feedback(fb, now);
            let target = ctrl.target_bitrate();
            assert!(target >= cfg.min_bitrate && target <= cfg.max_bitrate);
            assert!(ctrl.pacing_interval() >= Duration::from_micros(1));
        }
    }
}

#[test]
fn gcc_bounds_hold_when_the_clock_goes_back() {
    for seed in 0..200u64 {
        let cfg = GccConfig::default();
        let mut ctrl = GccController::new(cfg);
        let mut now = Instant::now();
        for (i, fb) in feedbacks(seed, 30).iter().enumerate() {
            if i % 3 == 0 {
                now = now - Duration::from_millis(500);
            } else {
                now += Duration::from_millis(20);
            }
            ctrl.on_feedback(fb, now);
            let target = ctrl.target_bitrate();
            assert!(target >= cfg.min_bitrate && target <= cfg.max_bitrate);
            assert!(ctrl.pacing_interval() >= Duration::from_micros(1));
        }
    }
}

#[test]
fn gcc_pacing_agrees_with_the_hardware() {
    for kbps in [100u64, 101, 999, 2_000, 7_777, 49_999] {
        let cfg = GccConfig {
            initial_bitrate: Bitrate::from_kbps(kbps),
            ..GccConfig::default()
        };
        let ctrl = GccController::new(cfg);
        let bps = ctrl.target_bitrate().as_bps_f64();
        let micros = (f64::from(1_460u32) * 8.0 / bps * 1_000_000.0) as u64;
        assert_eq!(ctrl.pacing_interval(), Duration::from_micros(micros.max(1)));
    }
}

#[test]
fn gcc_backs_off_once_per_round_trip() {
    let mut ctrl = GccController::with_defaults();
    let fb = TransportStats {
        rtt: Duration::from_millis(50),
        queue_delay: Duration::from_millis(50),
        bytes_acked: 1_000,
        bytes_lost: 0,
        loss_fraction_q8: 0,
        interval: Duration::from_millis(10),
    };
    let base = Instant::now();
    let mut last: Option<u64> = None;
    for i in 0..100u64 {
        let before = ctrl.target_bitrate();
        ctrl.on_feedback(&fb, base + Duration::from_millis(10 * i));
        if ctrl.target_bitrate() < before {
            if let Some(then) = last {
                assert!(10 * (i - then) >= 50);
            }
            last = Some(i);
        }
    }
    assert!(last.is_some());
}

#[test]
fn gcc_first_decrease_is_fifteen_percent() {
    let mut ctrl = GccController::with_defaults();
    let fb = TransportStats {
        rtt: Duration::from_millis(50),
        queue_delay: Duration::from_millis(26),
        bytes_acked: 1_000,
        bytes_lost: 0,
        loss_fraction_q8: 0,
        interval: Duration::from_millis(10),
    };
    ctrl.on_feedback(&fb, Instant::now());
    assert_eq!(ctrl.target_bitrate(), Bitrate::from_kbps(1_700));
}

#[test]
fn gcc_settles_on_the_least_rate_when_there_is_no_number() {
    let mut core = gcc::GccController::with_defaults();
    for raw in [f64::NAN, f64::INFINITY, f64::NEG_INFINITY, -1.0, 0.0, -0.0] {
        core.settle(num(raw));
        assert_eq!(core.target_bitrate(), Bitrate::from_kbps(100), "{raw}");
    }
    core.settle(num(1e300));
    assert_eq!(core.target_bitrate(), Bitrate::from_mbps(50));
    core.settle(num(3_000_000.75));
    assert_eq!(core.target_bitrate(), Bitrate::from_bps(3_000_000));
}

#[test]
fn gcc_silence_restarts() {
    let mut ctrl = GccController::with_defaults();
    let mut sim = NetSim::new(50_000, 5, 0.0);
    let mut now = sim.clock;
    for _ in 0..100 {
        let (n, fb) = sim.tick(ctrl.target_bitrate().as_bps_f64());
        ctrl.on_feedback(&fb, n);
        now = n;
    }
    assert!(ctrl.target_bitrate() > Bitrate::from_mbps(2));
    let (_, fb) = sim.tick(0.0);
    ctrl.on_feedback(&fb, now + Duration::from_secs(31));
    assert_eq!(ctrl.target_bitrate(), Bitrate::from_mbps(2));
}
