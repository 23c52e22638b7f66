use streamhaul::media::Codec;
use streamhaul::negotiation::{
    choice_to_discriminant, BuildFlavor, CodecCapabilities, CodecCapsPayload, CodecChoice,
    CodecNegotiator, ContentMode, CODEC_DISC_H265,
};

// ── Helpers ───────────────────────────────────────────────────────────────

/// Caps that can do everything (all HW encode/decode, SW H264, not Apple, not browser).
fn full_caps() -> CodecCapabilities {
    CodecCapabilities {
        hw_encode_mask: 0b0000_0111, // H264 + H265 + AV1
        hw_decode_mask: 0b0000_0111,
        sw_h264_encode_available: true,
        is_apple: false,
        is_browser: false,
    }
}

fn h264_only_caps() -> CodecCapabilities {
    CodecCapabilities {
        hw_encode_mask: 0b0000_0001, // H264 only
        hw_decode_mask: 0b0000_0001,
        sw_h264_encode_available: true,
        is_apple: false,
        is_browser: false,
    }
}

fn no_caps() -> CodecCapabilities {
    CodecCapabilities {
        hw_encode_mask: 0,
        hw_decode_mask: 0,
        sw_h264_encode_available: false,
        is_apple: false,
        is_browser: false,
    }
}

fn codec_seq(ladder: &[CodecChoice]) -> Vec<Codec> {
    ladder.iter().map(|c| c.codec).collect()
}

fn hw_seq(ladder: &[CodecChoice]) -> Vec<bool> {
    ladder.iter().map(|c| c.hardware).collect()
}

// ── Ladder shape: OSS Game ────────────────────────────────────────────────

#[test]
fn oss_game_ladder_full_caps() {
    let local = full_caps();
    let remote = full_caps();
    let ladder = CodecNegotiator::ladder(&local, &remote, ContentMode::Game, BuildFlavor::Oss);

    // Expected: AV1 HW → H264 HW → H264 SW
    assert_eq!(
        codec_seq(&ladder),
        vec![Codec::Av1, Codec::H264, Codec::H264],
        "OSS Game ladder: [AV1 HW, H264 HW, H264 SW]"
    );
    assert_eq!(hw_seq(&ladder), vec![true, true, false]);
    assert!(ladder[2].rate_limited, "SW rung must be rate-limited");

    println!("\nOSS Game ladder:");
    for r in &ladder {
        println!(
            "  {:?} {} {}",
            r.codec,
            if r.hardware { "HW" } else { "SW" },
            if r.rate_limited { "(rate-limited)" } else { "" }
        );
    }
}

// ── Ladder shape: Commercial Game ─────────────────────────────────────────

#[test]
fn commercial_game_ladder_full_caps() {
    let local = full_caps();
    let remote = full_caps();
    let ladder =
        CodecNegotiator::ladder(&local, &remote, ContentMode::Game, BuildFlavor::Commercial);

    // Expected: HEVC HW → AV1 HW → H264 HW (no SW rung)
    assert_eq!(
        codec_seq(&ladder),
        vec![Codec::H265, Codec::Av1, Codec::H264],
        "Commercial Game ladder: [HEVC HW, AV1 HW, H264 HW]"
    );
    assert_eq!(hw_seq(&ladder), vec![true, true, true]);
    assert!(
        !ladder.iter().any(|r| r.rate_limited),
        "no SW rung in commercial Game"
    );

    println!("\nCommercial Game ladder:");
    for r in &ladder {
        println!("  {:?} {}", r.codec, if r.hardware { "HW" } else { "SW" });
    }
}

// ── Work mode: no SW rung ─────────────────────────────────────────────────

#[test]
fn oss_work_ladder_never_sw() {
    let local = full_caps();
    let remote = full_caps();
    let ladder = CodecNegotiator::ladder(&local, &remote, ContentMode::Work, BuildFlavor::Oss);

    // SW rung must never appear.
    assert!(
        !ladder.iter().any(|r| r.rate_limited),
        "Work mode must never have SW/rate-limited rung"
    );
    assert!(
        ladder.iter().all(|r| r.hardware),
        "Work mode: all rungs must be HW"
    );

    println!("\nOSS Work ladder: {:?}", codec_seq(&ladder));
}

#[test]
fn commercial_work_ladder_never_sw() {
    let local = full_caps();
    let remote = full_caps();
    let ladder =
        CodecNegotiator::ladder(&local, &remote, ContentMode::Work, BuildFlavor::Commercial);

    assert!(
        !ladder.iter().any(|r| r.rate_limited),
        "Commercial Work mode must never have SW rung"
    );
}

// ── Apple exception: AV1 removed from encode ladder ──────────────────────

#[test]
fn apple_host_no_av1_encode_in_ladder() {
    let mut local = full_caps();
    local.is_apple = true;
    let remote = full_caps();

    let oss_ladder =
        CodecNegotiator::ladder(&local, &remote, ContentMode::Game, BuildFlavor::Oss);

    assert!(
        !oss_ladder.iter().any(|r| r.codec == Codec::Av1),
        "Apple host: AV1 must not appear in the encode ladder"
    );
    // H264 must still be reachable.
    assert!(
        oss_ladder.iter().any(|r| r.codec == Codec::H264),
        "Apple host: H264 must still be reachable"
    );

    println!("\nApple OSS Game ladder: {:?}", codec_seq(&oss_ladder));
}

// ── Browser peer: H264 always reachable ──────────────────────────────────

#[test]
fn browser_peer_h264_always_reachable() {
    // Remote browser advertises no HW decode at all, but is_browser=true.
    let local = full_caps();
    let mut remote = no_caps();
    remote.is_browser = true;

    let ladder = CodecNegotiator::ladder(&local, &remote, ContentMode::Game, BuildFlavor::Oss);

    assert!(
        ladder.iter().any(|r| r.codec == Codec::H264),
        "browser peer: H264 must always be reachable in the ladder"
    );

    println!("\nBrowser peer OSS Game ladder: {:?}", codec_seq(&ladder));
}

// ── Intersection: remote can't decode AV1 → AV1 skipped ─────────────────

#[test]
fn intersection_av1_skipped_when_remote_cant_decode() {
    let local = full_caps();
    let mut remote = full_caps();
    // Remote can't decode AV1.
    remote.hw_decode_mask = 0b0000_0001; // H264 only

    let ladder = CodecNegotiator::ladder(&local, &remote, ContentMode::Game, BuildFlavor::Oss);

    assert!(
        !ladder.iter().any(|r| r.codec == Codec::Av1),
        "AV1 must be skipped when remote cannot decode it"
    );
    assert!(
        ladder.iter().any(|r| r.codec == Codec::H264),
        "H264 must still be reachable"
    );
}

// ── Empty intersection → select() returns None ────────────────────────────

#[test]
fn empty_intersection_select_is_none() {
    // Local can only HW-encode AV1; remote can only HW-decode H265; no SW.
    let local = CodecCapabilities {
        hw_encode_mask: 0b0000_0100, // AV1 only
        hw_decode_mask: 0,
        sw_h264_encode_available: false,
        is_apple: false,
        is_browser: false,
    };
    let remote = CodecCapabilities {
        hw_encode_mask: 0,
        hw_decode_mask: 0b0000_0010, // H265 only (can't decode AV1)
        sw_h264_encode_available: false,
        is_apple: false,
        is_browser: false,
    };
    let ladder = CodecNegotiator::ladder(&local, &remote, ContentMode::Game, BuildFlavor::Oss);
    assert!(
        ladder.is_empty(),
        "no intersection: ladder must be empty, not panic"
    );
    assert_eq!(
        CodecNegotiator::select(&ladder),
        None,
        "select() must return None for empty ladder"
    );
}

// ── Degradation: degrade() steps down the ladder ─────────────────────────

#[test]
fn degrade_steps_through_ladder() {
    let local = full_caps();
    let remote = full_caps();
    let ladder = CodecNegotiator::ladder(&local, &remote, ContentMode::Game, BuildFlavor::Oss);

    let first = CodecNegotiator::select(&ladder).unwrap();
    assert_eq!(first.codec, Codec::Av1);

    let second = CodecNegotiator::degrade(&first, &ladder).unwrap();
    assert_eq!(second.codec, Codec::H264);
    assert!(second.hardware);

    let third = CodecNegotiator::degrade(&second, &ladder).unwrap();
    assert_eq!(third.codec, Codec::H264);
    assert!(!third.hardware);
    assert!(third.rate_limited);

    // Past last rung → None (must NOT panic).
    let beyond = CodecNegotiator::degrade(&third, &ladder);
    assert_eq!(beyond, None, "past last rung must return None, not panic");
}

#[test]
fn degrade_on_empty_ladder_is_none() {
    let current = CodecChoice::hw(Codec::H264);
    let empty: Vec<CodecChoice> = Vec::new();
    assert_eq!(CodecNegotiator::degrade(&current, &empty), None);
}

// ── Open-source builds never offer HEVC ─────────────────────────────────────

#[test]
fn oss_ladder_never_contains_hevc() {
    let local = full_caps();
    let remote = full_caps();

    for mode in [ContentMode::Game, ContentMode::Work, ContentMode::Scrolling] {
        let ladder = CodecNegotiator::ladder(&local, &remote, mode, BuildFlavor::Oss);
        assert!(
            !ladder.iter().any(|r| r.codec == Codec::H265),
            "OSS ladder must never contain HEVC (mode={mode:?})"
        );
    }
}

/// An open-source build cannot emit H265 via the ladder, for all three content modes, even when
/// both peers advertise it.
#[test]
fn oss_build_commercial_path_never_emits_h265() {
    let full_with_h265 = CodecCapabilities {
        hw_encode_mask: 0b0000_0111, // H264 + H265 + AV1 all set
        hw_decode_mask: 0b0000_0111,
        sw_h264_encode_available: true,
        is_apple: false,
        is_browser: false,
    };

    for mode in [ContentMode::Game, ContentMode::Work, ContentMode::Scrolling] {
        let ladder =
            CodecNegotiator::ladder(&full_with_h265, &full_with_h265, mode, BuildFlavor::Oss);
        assert!(
            !ladder.iter().any(|r| r.codec == Codec::H265),
            "OSS build: ladder must never contain H265 even when both peers advertise it \
             (mode={mode:?})"
        );
    }

    let wire = full_with_h265.to_wire_offer();
    // An offer (not an answer) carries selected_codec = None.
    assert_eq!(
        wire.selected_codec, None,
        "OSS capability offer must never carry a selected H265 codec"
    );
    // The ladder result never sets selected_codec = Some(CODEC_DISC_H265).
    let h265_disc = CODEC_DISC_H265;
    let ladder = CodecNegotiator::ladder(
        &full_with_h265,
        &full_with_h265,
        ContentMode::Game,
        BuildFlavor::Oss,
    );
    for rung in &ladder {
        let disc = choice_to_discriminant(rung);
        assert_ne!(
            disc, h265_disc,
            "OSS build: no ladder rung may have H265 discriminant"
        );
    }
}

// ── Commercial ladder leads with HEVC ───────────────────────────────────────

#[test]
fn commercial_game_ladder_leads_with_hevc() {
    let local = full_caps();
    let remote = full_caps();
    let ladder =
        CodecNegotiator::ladder(&local, &remote, ContentMode::Game, BuildFlavor::Commercial);
    assert_eq!(
        ladder.first().map(|r| r.codec),
        Some(Codec::H265),
        "Commercial Game ladder must lead with HEVC"
    );
}

// ── BuildFlavor::from_compile_time ────────────────────────────────────────

#[test]
fn from_compile_time_is_commercial_with_hevc_feature() {
    assert_eq!(BuildFlavor::for_licence(true), BuildFlavor::Commercial);
}

#[test]
fn from_compile_time_is_oss_without_hevc_feature() {
    assert_eq!(BuildFlavor::from_compile_time(), BuildFlavor::Oss);
}

// ── Wire conversion round-trip ─────────────────────────────────────────────

#[test]
fn caps_wire_roundtrip() {
    let caps = CodecCapabilities {
        hw_encode_mask: 0b0000_0110,
        hw_decode_mask: 0b0000_0111,
        sw_h264_encode_available: true,
        is_apple: false,
        is_browser: true,
    };
    let wire = caps.to_wire_offer();
    let back = CodecCapabilities::from_wire(&wire);
    assert_eq!(back, caps);
    assert_eq!(wire.selected_codec, None);
}

// ── Scrolling mode follows Game rules ─────────────────────────────────────

#[test]
fn scrolling_mode_follows_game_rules() {
    let local = full_caps();
    let remote = full_caps();
    let game = CodecNegotiator::ladder(&local, &remote, ContentMode::Game, BuildFlavor::Oss);
    let scroll =
        CodecNegotiator::ladder(&local, &remote, ContentMode::Scrolling, BuildFlavor::Oss);
    assert_eq!(
        codec_seq(&game),
        codec_seq(&scroll),
        "Scrolling and Game must produce the same ladder"
    );
}

// ── choice_to_discriminant ────────────────────────────────────────────────

#[test]
fn discriminant_matches_wire_encoding() {
    assert_eq!(choice_to_discriminant(&CodecChoice::hw(Codec::H264)), 0);
    assert_eq!(choice_to_discriminant(&CodecChoice::hw(Codec::H265)), 1);
    assert_eq!(choice_to_discriminant(&CodecChoice::hw(Codec::Av1)), 2);
}

// ── h264_only: full ladder with only H264 caps ────────────────────────────

#[test]
fn h264_only_ladder_oss_game() {
    let local = h264_only_caps();
    let remote = h264_only_caps();
    let ladder = CodecNegotiator::ladder(&local, &remote, ContentMode::Game, BuildFlavor::Oss);

    // AV1 missing from both sides, SW H264 available.
    // Expected: H264 HW → H264 SW
    assert_eq!(codec_seq(&ladder), vec![Codec::H264, Codec::H264]);
    assert_eq!(hw_seq(&ladder), vec![true, false]);
}

#[test]
fn h264_only_work_mode_no_sw() {
    let local = h264_only_caps();
    let remote = h264_only_caps();
    let ladder = CodecNegotiator::ladder(&local, &remote, ContentMode::Work, BuildFlavor::Oss);

    // Work mode drops SW rung → only H264 HW.
    assert_eq!(codec_seq(&ladder), vec![Codec::H264]);
    assert_eq!(hw_seq(&ladder), vec![true]);
}

// ── Apple + browser combined ──────────────────────────────────────────────

#[test]
fn apple_encoder_browser_decoder() {
    // Apple host (no AV1 encode) sending to browser peer (implicit H264 decode).
    let mut local = full_caps();
    local.is_apple = true;
    let mut remote = no_caps();
    remote.is_browser = true;

    let ladder = CodecNegotiator::ladder(&local, &remote, ContentMode::Game, BuildFlavor::Oss);

    // AV1 excluded (Apple). Browser guarantees H264 decode even with empty hw_decode_mask.
    assert!(!ladder.iter().any(|r| r.codec == Codec::Av1));
    assert!(ladder.iter().any(|r| r.codec == Codec::H264));

    println!("\nApple→Browser OSS Game ladder: {:?}", codec_seq(&ladder));
}

fn print_ladder(label: &str, ladder: &[CodecChoice]) {
    println!("\n=== {} ===", label);
    if ladder.is_empty() {
        println!("  (empty — no mutual codec)");
        return;
    }
    for (i, r) in ladder.iter().enumerate() {
        println!(
            "  [{}] {:?} {} {}",
            i.saturating_add(1),
            r.codec,
            if r.hardware { "HW" } else { "SW" },
            if r.rate_limited { "(rate-limited)" } else { "" }
        );
    }
}

#[test]
fn print_ladder_table() {
    let local = full_caps();
    let remote = full_caps();
    let mut apple_local = full_caps();
    apple_local.is_apple = true;
    let mut browser_remote = no_caps();
    browser_remote.is_browser = true;

    print_ladder(
        "OSS Game (full caps)",
        &CodecNegotiator::ladder(&local, &remote, ContentMode::Game, BuildFlavor::Oss),
    );
    print_ladder(
        "OSS Work (full caps)",
        &CodecNegotiator::ladder(&local, &remote, ContentMode::Work, BuildFlavor::Oss),
    );
    print_ladder(
        "OSS Game (Apple encoder)",
        &CodecNegotiator::ladder(&apple_local, &remote, ContentMode::Game, BuildFlavor::Oss),
    );
    print_ladder(
        "OSS Game (Browser peer, no HW decode mask)",
        &CodecNegotiator::ladder(&local, &browser_remote, ContentMode::Game, BuildFlavor::Oss),
    );
    print_ladder(
        "Commercial Game (full caps)",
        &CodecNegotiator::ladder(&local, &remote, ContentMode::Game, BuildFlavor::Commercial),
    );
}

fn every_caps() -> Vec<CodecCapabilities> {
    let mut out = Vec::new();
    for hw_encode_mask in 0..8u8 {
        for hw_decode_mask in 0..8u8 {
            for flags in 0..8u8 {
                out.push(CodecCapabilities {
                    hw_encode_mask,
                    hw_decode_mask,
                    sw_h264_encode_available: flags & 1 != 0,
                    is_apple: flags & 2 != 0,
                    is_browser: flags & 4 != 0,
                });
            }
        }
    }
    out
}

fn rank(c: &CodecChoice) -> u32 {
    match (c.codec, c.hardware) {
        (Codec::H265, _) => 0,
        (Codec::Av1, _) => 1,
        (Codec::H264, true) => 2,
        (Codec::H264, false) => 3,
        (Codec::Raw, _) => 4,
    }
}

#[test]
fn ladder_laws_hold_for_all_capabilities() {
    let all = every_caps();
    for local in &all {
        for remote in all.iter().step_by(7) {
            for mode in [ContentMode::Game, ContentMode::Work, ContentMode::Scrolling] {
                for flavor in [BuildFlavor::Oss, BuildFlavor::Commercial] {
                    let ladder = CodecNegotiator::ladder(local, remote, mode, flavor);
                    for pair in ladder.windows(2) {
                        assert!(rank(&pair[0]) < rank(&pair[1]));
                        assert_eq!(CodecNegotiator::degrade(&pair[0], &ladder), Some(pair[1]));
                    }
                    for rung in &ladder {
                        let bit = 1u8 << choice_to_discriminant(rung);
                        assert!(remote.hw_decode_mask & bit != 0
                            || (remote.is_browser && rung.codec == Codec::H264));
                        if rung.hardware {
                            assert!(local.hw_encode_mask & bit != 0);
                        } else {
                            assert!(local.sw_h264_encode_available && rung.rate_limited);
                            assert!(mode != ContentMode::Work && flavor == BuildFlavor::Oss);
                        }
                        assert!(!(local.is_apple && rung.codec == Codec::Av1));
                        assert!(rung.codec != Codec::H265 || flavor == BuildFlavor::Commercial);
                    }
                    if remote.is_browser && local.hw_encode_mask & 1 != 0 {
                        assert!(ladder.contains(&CodecChoice::hw(Codec::H264)));
                    }
                    let decodes_h264 = remote.hw_decode_mask & 1 != 0 || remote.is_browser;
                    if flavor == BuildFlavor::Oss && mode != ContentMode::Work
                        && local.sw_h264_encode_available && decodes_h264
                    {
                        assert_eq!(ladder.last(), Some(&CodecChoice::sw_h264()));
                    }
                }
            }
        }
    }
}

#[test]
fn degrade_from_a_rung_that_is_not_there_is_none() {
    let ladder = [CodecChoice::hw(Codec::Av1), CodecChoice::hw(Codec::H264)];
    assert_eq!(CodecNegotiator::degrade(&CodecChoice::hw(Codec::H265), &ladder), None);
    assert_eq!(CodecNegotiator::degrade(&CodecChoice::sw_h264(), &ladder), None);
    assert_eq!(choice_to_discriminant(&CodecChoice::hw(Codec::Raw)), 3);
}

#[test]
fn an_answer_carries_the_same_capabilities_as_an_offer() {
    let answer = CodecCapsPayload {
        selected_codec: Some(2),
        ..full_caps().to_wire_offer()
    };
    assert_eq!(CodecCapabilities::from_wire(&answer), full_caps());
}
