use streamhaul::allocator::{AllocatorConfig, ChannelAllocation, RateAllocator};
use streamhaul::bitrate::Bitrate;
use streamhaul::channel::ChannelId;

/// Build a default allocator for convenience in multiple tests.
fn default_alloc() -> RateAllocator {
    RateAllocator::new(AllocatorConfig::default())
}

// ── Sum invariant (proptest) ───────────────────────────────────────────────

// ── Priority order ─────────────────────────────────────────────────────────

/// At zero total, all allocations are zero.
#[test]
fn zero_total_produces_zero_allocations() {
    let result = default_alloc().allocate(Bitrate::zero());
    assert_eq!(result.input, Bitrate::zero());
    assert_eq!(result.control, Bitrate::zero());
    assert_eq!(result.clipboard, Bitrate::zero());
    assert_eq!(result.audio, Bitrate::zero());
    assert_eq!(result.video, Bitrate::zero());
    assert_eq!(result.file, Bitrate::zero());
    assert_eq!(result.sum(), Bitrate::zero());
}

/// At 1 bps total, only Input gets anything (it has the highest priority).
#[test]
fn one_bps_goes_to_input_only() {
    let result = default_alloc().allocate(Bitrate::from_bps(1));
    assert_eq!(
        result.input,
        Bitrate::from_bps(1),
        "input should win at 1 bps"
    );
    assert_eq!(result.control, Bitrate::zero());
    assert_eq!(result.clipboard, Bitrate::zero());
    assert_eq!(result.audio, Bitrate::zero());
    assert_eq!(result.video, Bitrate::zero());
    assert_eq!(result.file, Bitrate::zero());
}

/// Just above the input reserve: input fills, control gets a little, rest zero.
#[test]
fn just_above_input_reserve_fills_input_then_control() {
    let config = AllocatorConfig::default();
    // Total = input_reserve + 1 bps
    let total = config.input_reserve.saturating_add(Bitrate::from_bps(1));
    let result = RateAllocator::new(config).allocate(total);
    assert_eq!(result.input, config.input_reserve);
    assert_eq!(result.control, Bitrate::from_bps(1));
    assert_eq!(result.clipboard, Bitrate::zero());
    assert_eq!(result.audio, Bitrate::zero());
    assert_eq!(result.video, Bitrate::zero());
    assert_eq!(result.file, Bitrate::zero());
    assert_eq!(result.sum(), total);
}

/// At total == input_reserve + control_reserve + clipboard_reserve: all three reserves filled,
/// audio and video and file get zero.
#[test]
fn exactly_three_reserves_no_audio_no_video_no_file() {
    let config = AllocatorConfig::default();
    let total = config
        .input_reserve
        .saturating_add(config.control_reserve)
        .saturating_add(config.clipboard_reserve);
    let result = RateAllocator::new(config).allocate(total);
    assert_eq!(result.input, config.input_reserve);
    assert_eq!(result.control, config.control_reserve);
    assert_eq!(result.clipboard, config.clipboard_reserve);
    assert_eq!(result.audio, Bitrate::zero());
    assert_eq!(result.video, Bitrate::zero());
    assert_eq!(result.file, Bitrate::zero());
    assert_eq!(result.sum(), total);
}

// ── Audio floor ────────────────────────────────────────────────────────────

/// Audio gets its full floor when the budget allows it.
#[test]
fn audio_floor_respected_when_budget_allows() {
    let config = AllocatorConfig::default();
    // total = all three reserves + audio_min exactly
    let total = config
        .input_reserve
        .saturating_add(config.control_reserve)
        .saturating_add(config.clipboard_reserve)
        .saturating_add(config.audio_min);
    let result = RateAllocator::new(config).allocate(total);
    assert_eq!(
        result.audio, config.audio_min,
        "audio should get its full floor"
    );
    assert_eq!(result.video, Bitrate::zero());
    assert_eq!(result.file, Bitrate::zero());
    assert_eq!(result.sum(), total);
}

/// When total is between the three reserves and reserves+audio_min, audio gets less than
/// its floor but video and file still get zero (audio wins over video even below its floor).
#[test]
fn audio_wins_over_video_when_below_audio_floor() {
    let config = AllocatorConfig::default();
    // Put 1 bps above the three reserves — not enough for the full audio floor.
    let total = config
        .input_reserve
        .saturating_add(config.control_reserve)
        .saturating_add(config.clipboard_reserve)
        .saturating_add(Bitrate::from_bps(1));
    let result = RateAllocator::new(config).allocate(total);
    assert_eq!(
        result.audio,
        Bitrate::from_bps(1),
        "audio should win over video even when below its floor"
    );
    assert_eq!(result.video, Bitrate::zero());
    assert_eq!(result.file, Bitrate::zero());
}

// ── Video bulk ─────────────────────────────────────────────────────────────

/// At a comfortable total (2 Mbps), video gets the bulk and file may get zero.
#[test]
fn video_gets_bulk_at_2mbps() {
    let result = default_alloc().allocate(Bitrate::from_mbps(2));
    // floors: 32+32+32+96 = 192 kbps
    // remaining for video: 2000 - 192 = 1808 kbps
    let expected_video = Bitrate::from_kbps(1808);
    assert_eq!(
        result.video, expected_video,
        "video should take the remaining budget at 2 Mbps"
    );
    // file gets zero because video_max (20 Mbps) is not reached
    assert_eq!(result.file, Bitrate::zero());
    assert_eq!(result.sum(), Bitrate::from_mbps(2));
}

/// At 20 Mbps total, video hits video_max; file gets any leftover.
#[test]
fn video_capped_at_video_max_leaving_file_surplus() {
    let config = AllocatorConfig::default();
    // total well above video_max (20 Mbps) — use 25 Mbps
    let total = Bitrate::from_mbps(25);
    let result = RateAllocator::new(config).allocate(total);
    // Video must be capped at video_max.
    assert_eq!(
        result.video, config.video_max,
        "video should be capped at video_max"
    );
    // File must be non-zero.
    assert!(
        result.file > Bitrate::zero(),
        "file should get the surplus above video_max"
    );
    assert_eq!(result.sum(), total);
}

/// As total grows from video_max + floors, video reaches video_max before file gets a
/// large share. Verify the crossover point.
#[test]
fn file_gets_large_share_only_after_video_reaches_max() {
    let config = AllocatorConfig::default();
    let alloc = RateAllocator::new(config);

    // Floors consumed before video: input + control + clipboard + audio
    let floor_sum = config
        .input_reserve
        .saturating_add(config.control_reserve)
        .saturating_add(config.clipboard_reserve)
        .saturating_add(config.audio_min);

    // total = floors + video_max − 1 bps: video just below video_max, file = 0.
    let total_just_below = floor_sum
        .saturating_add(config.video_max)
        .saturating_sub(Bitrate::from_bps(1));
    let result_below = alloc.allocate(total_just_below);
    assert_eq!(
        result_below.file,
        Bitrate::zero(),
        "file must be zero when total is just below the video_max crossover"
    );

    // total = floors + video_max + 1 bps: video exactly at video_max, file = 1 bps.
    let total_above = floor_sum
        .saturating_add(config.video_max)
        .saturating_add(Bitrate::from_bps(1));
    let result_above = alloc.allocate(total_above);
    assert_eq!(
        result_above.video, config.video_max,
        "video must be exactly video_max at crossover"
    );
    assert_eq!(
        result_above.file,
        Bitrate::from_bps(1),
        "file must be 1 bps immediately above the video_max crossover"
    );
}

// ── File never starves video ────────────────────────────────────────────────

/// File never exceeds video at any total. Once video reaches video_max, file gets the
/// remainder — but below video_max the video allocation always dominates file.
#[test]
fn file_never_starves_video_below_video_max() {
    let alloc = default_alloc();
    // Sweep across the range where video is below video_max (0 to floors + video_max).
    for kbps in [0u64, 100, 192, 300, 500, 1000, 2000, 5000, 10_000, 20_000] {
        let result = alloc.allocate(Bitrate::from_kbps(kbps));
        assert!(
            result.video >= result.file,
            "at {}kbps total: video {} < file {}",
            kbps,
            result.video.as_kbps(),
            result.file.as_kbps()
        );
    }
}

// ── Degenerate / hostile totals ────────────────────────────────────────────

/// u64::MAX total does not panic and produces a valid (finite) allocation.
#[test]
fn u64_max_total_no_panic_no_overflow() {
    let alloc = default_alloc();
    let result = alloc.allocate(Bitrate::from_bps(u64::MAX));
    // sum() must not overflow and must be <= u64::MAX.
    assert!(result.sum() <= Bitrate::from_bps(u64::MAX));
    // video must be capped at video_max.
    assert_eq!(result.video, AllocatorConfig::default().video_max);
}

/// Allocation is deterministic: same input always produces same output.
#[test]
fn allocation_is_deterministic() {
    let alloc = default_alloc();
    let total = Bitrate::from_mbps(10);
    let a = alloc.allocate(total);
    let b = alloc.allocate(total);
    assert_eq!(a, b);
}

// ── Allocation table (printed when running with --nocapture) ───────────────

/// Pretty-print allocations at several representative totals.
///
/// Run with `cargo test -- --nocapture print_allocation_table` to see the table.
#[test]
fn print_allocation_table() {
    let alloc = default_alloc();
    println!();
    println!(
        "{:<14} {:>10} {:>10} {:>10} {:>10} {:>10} {:>10} {:>10}",
        "Total", "Input", "Control", "Clipboard", "Audio", "Video", "File", "Sum"
    );
    println!("{}", "-".repeat(92));
    for &kbps in &[
        0u64, 1, 32, 96, 192, 200, 300, 500, 1_000, 2_000, 5_000, 10_000, 20_000, 25_000,
    ] {
        let total = Bitrate::from_kbps(kbps);
        let r = alloc.allocate(total);
        println!(
            "{:<14} {:>10} {:>10} {:>10} {:>10} {:>10} {:>10} {:>10}",
            format!("{} kbps", kbps),
            r.input.as_kbps(),
            r.control.as_kbps(),
            r.clipboard.as_kbps(),
            r.audio.as_kbps(),
            r.video.as_kbps(),
            r.file.as_kbps(),
            r.sum().as_kbps(),
        );
    }
    println!();

    let r200 = alloc.allocate(Bitrate::from_kbps(200));
    assert_eq!(r200.sum(), Bitrate::from_kbps(200));

    let r2m = alloc.allocate(Bitrate::from_mbps(2));
    assert_eq!(r2m.sum(), Bitrate::from_mbps(2));

    let r20m = alloc.allocate(Bitrate::from_mbps(20));
    assert_eq!(r20m.sum(), Bitrate::from_mbps(20));
}

/// Totals over the whole range, dense around the points where a channel is filled.
fn totals() -> Vec<u64> {
    let mut out = vec![0, 1, u64::MAX - 1, u64::MAX];
    for edge in [32_000u64, 64_000, 96_000, 192_000, 20_192_000] {
        for d in 0..3 {
            out.push(edge - 1 + d);
        }
    }
    for shift in 0..64 {
        out.push(1 << shift);
    }
    out
}

#[test]
fn shares_add_up_and_stay_below_the_total() {
    for bps in totals() {
        let total = Bitrate::from_bps(bps);
        let r = default_alloc().allocate(total);
        assert_eq!(r.sum(), total, "at {bps}");
        let via_get = r
            .get(ChannelId::Input)
            .saturating_add(r.get(ChannelId::Control))
            .saturating_add(r.get(ChannelId::Clipboard))
            .saturating_add(r.get(ChannelId::Audio))
            .saturating_add(r.get(ChannelId::Video))
            .saturating_add(r.get(ChannelId::File));
        assert_eq!(r.sum(), via_get);
        for share in [r.input, r.control, r.clipboard, r.audio, r.video, r.file] {
            assert!(share <= total);
        }
        assert!(r.video <= AllocatorConfig::default().video_max);
    }
}

#[test]
fn getters_agree_with_channels() {
    let r = default_alloc().allocate(Bitrate::from_mbps(25));
    assert_eq!(r.input(), r.get(ChannelId::Input));
    assert_eq!(r.control(), r.get(ChannelId::Control));
    assert_eq!(r.clipboard(), r.get(ChannelId::Clipboard));
    assert_eq!(r.audio(), r.get(ChannelId::Audio));
    assert_eq!(r.video(), r.get(ChannelId::Video));
    assert_eq!(r.file(), r.get(ChannelId::File));
    assert_eq!(r.file(), Bitrate::from_kbps(4808));
}

#[test]
fn a_larger_total_takes_nothing_away() {
    let mut sorted = totals();
    sorted.sort();
    let mut before: Option<ChannelAllocation> = None;
    for bps in sorted {
        let r = default_alloc().allocate(Bitrate::from_bps(bps));
        if let Some(b) = before {
            assert!(b.input <= r.input && b.control <= r.control && b.clipboard <= r.clipboard);
            assert!(b.audio <= r.audio && b.video <= r.video && b.file <= r.file);
        }
        before = Some(r);
    }
}

#[test]
fn default_floors() {
    let c = AllocatorConfig::default();
    assert_eq!(c.input_reserve, Bitrate::from_kbps(32));
    assert_eq!(c.control_reserve, Bitrate::from_kbps(32));
    assert_eq!(c.clipboard_reserve, Bitrate::from_kbps(32));
    assert_eq!(c.audio_min, Bitrate::from_kbps(96));
    assert_eq!(c.video_max, Bitrate::from_mbps(20));
}
