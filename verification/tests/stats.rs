use streamhaul::stats::{clamp_duration, clamp_rtt, TransportStats};
use streamhaul::time::Duration;

#[test]
fn default_is_zeroed() {
    let s = TransportStats::default();
    assert_eq!(s.rtt, Duration::zero());
    assert_eq!(s.bytes_acked, 0);
    assert_eq!(s.loss_fraction_q8, 0);
}

#[test]
fn loss_fraction_no_loss() {
    let s = TransportStats {
        loss_fraction_q8: 0,
        ..Default::default()
    };
    assert_eq!(f64::from_bits(s.loss_fraction().to_bits()), 0.0);
}

#[test]
fn loss_fraction_half() {
    let s = TransportStats {
        loss_fraction_q8: 128,
        ..Default::default()
    };
    let frac = f64::from_bits(s.loss_fraction().to_bits());
    assert!((frac - 0.5).abs() < 0.01, "expected ~0.5, got {frac}");
}

#[test]
fn loss_fraction_full() {
    let s = TransportStats {
        loss_fraction_q8: 255,
        ..Default::default()
    };
    let frac = f64::from_bits(s.loss_fraction().to_bits());
    assert!((frac - (255.0 / 256.0)).abs() < 1e-9);
}

#[test]
fn loss_fraction_agrees_with_the_hardware() {
    for q in 0..=255u8 {
        let s = TransportStats {
            loss_fraction_q8: q,
            ..Default::default()
        };
        assert_eq!(s.loss_fraction().to_bits(), (f64::from(q) / 256.0).to_bits(), "q={q}");
    }
}

/// The fraction that decides, in floating point: the reported one, or the bytes.
fn fraction(s: &TransportStats) -> f64 {
    if s.loss_fraction_q8 > 0 {
        f64::from(s.loss_fraction_q8) / 256.0
    } else if s.bytes_lost > 0 {
        (f64::from(s.bytes_lost) / f64::from(s.bytes_acked.max(1))).min(1.0)
    } else {
        0.0
    }
}

#[test]
fn loss_thresholds_agree_with_the_fraction() {
    for q in [0u8, 1, 5, 6, 25, 26, 128, 255] {
        for (acked, lost) in [(0u32, 0u32), (0, 1), (100, 1), (100, 2), (100, 3), (100, 11), (7, 9)] {
            let s = TransportStats {
                bytes_acked: acked,
                bytes_lost: lost,
                loss_fraction_q8: q,
                ..Default::default()
            };
            for (percent, bound) in [(2u8, 0.02f64), (10, 0.10)] {
                assert_eq!(s.exceeds_loss(percent), fraction(&s) > bound, "{s:?} {percent}");
                assert_eq!(s.reaches_loss(percent), fraction(&s) >= bound, "{s:?} {percent}");
            }
        }
    }
}

#[test]
fn round_trips_are_kept_within_what_is_believed() {
    assert_eq!(clamp_rtt(Duration::zero()), Duration::from_micros(100));
    assert_eq!(clamp_rtt(Duration::from_micros(99)), Duration::from_micros(100));
    assert_eq!(clamp_rtt(Duration::from_millis(40)), Duration::from_millis(40));
    assert_eq!(clamp_rtt(Duration::from_secs(11)), Duration::from_secs(10));
    let two = Duration::from_secs(2);
    assert_eq!(clamp_duration(Duration::from_secs(3), two), two);
    assert_eq!(clamp_duration(Duration::from_millis(3), two), Duration::from_millis(3));
}
