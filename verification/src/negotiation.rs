//! Codec selection: a ranked ladder of codecs that both endpoints support, and steps down it.
//!
//! All platform rules are predicates on [`CodecCapabilities`]:
//!
//! - an Apple host does not encode AV1;
//! - a browser decodes H.264 whatever it advertises;
//! - software H.264 is the last resort, and work content never uses it;
//! - H.265 is offered by commercial builds only.
use vstd::prelude::*;

pub use crate::classifier::ContentMode;
use crate::media::Codec;

verus! {

/// Wire discriminant of H.264.
pub const CODEC_DISC_H264: u8 = 0;

/// Wire discriminant of H.265.
pub const CODEC_DISC_H265: u8 = 1;

/// Wire discriminant of AV1.
pub const CODEC_DISC_AV1: u8 = 2;

/// Wire discriminant of raw pixels, which no ladder holds.
pub const CODEC_DISC_RAW: u8 = 3;

/// Whether this build may offer H.265. A build that holds a licence for it sets this.
pub const HEVC_LICENSED: bool = false;

/// Which codecs a build may offer.
#[derive(Debug, Clone, Copy, PartialEq, Eq, Structural)]
pub enum BuildFlavor {
    /// AV1 and H.264 only.
    Oss,
    /// H.265 on top, which takes a licence.
    Commercial,
}

impl BuildFlavor {
    /// The flavor of a build that holds a licence for H.265, or of one that does not.
    pub fn for_licence(hevc_licensed: bool) -> (r: Self)
        ensures
            r == if hevc_licensed {
                BuildFlavor::Commercial
            } else {
                BuildFlavor::Oss
            },
    {
        if hevc_licensed {
            BuildFlavor::Commercial
        } else {
            BuildFlavor::Oss
        }
    }

    /// The flavor of this build.
    pub fn from_compile_time() -> (r: Self)
        ensures
            r == if HEVC_LICENSED {
                BuildFlavor::Commercial
            } else {
                BuildFlavor::Oss
            },
    {
        Self::for_licence(HEVC_LICENSED)
    }
}

/// An offer or answer as it goes over the wire.
#[derive(Debug, Clone, Copy, PartialEq, Eq, Structural)]
pub struct CodecCapsPayload {
    /// Codecs that the endpoint encodes in hardware, one bit for each discriminant.
    pub hw_encode_mask: u8,
    /// Codecs that the endpoint decodes in hardware, one bit for each discriminant.
    pub hw_decode_mask: u8,
    /// Whether the endpoint can encode H.264 in software.
    pub sw_h264_encode_available: bool,
    /// Whether the endpoint is an Apple device.
    pub is_apple: bool,
    /// Whether the endpoint is a browser.
    pub is_browser: bool,
    /// The discriminant that an answer selects; none in an offer.
    pub selected_codec: Option<u8>,
}

/// What an endpoint can encode and decode.
#[derive(Debug, Clone, Copy, PartialEq, Eq, Structural)]
pub struct CodecCapabilities {
    /// Codecs that the endpoint encodes in hardware, one bit for each discriminant.
    pub hw_encode_mask: u8,
    /// Codecs that the endpoint decodes in hardware, one bit for each discriminant.
    pub hw_decode_mask: u8,
    /// Whether the endpoint can encode H.264 in software.
    pub sw_h264_encode_available: bool,
    /// Whether the endpoint is an Apple device.
    pub is_apple: bool,
    /// Whether the endpoint is a browser.
    pub is_browser: bool,
}

/// Bit `n` of a mask.
pub open spec fn bit(mask: u8, n: u8) -> bool {
    (mask >> n) & 1 == 1
}

/// The wire discriminant of a codec.
pub open spec fn discriminant(codec: Codec) -> u8 {
    match codec {
        Codec::H264 => CODEC_DISC_H264,
        Codec::H265 => CODEC_DISC_H265,
        Codec::Av1 => CODEC_DISC_AV1,
        Codec::Raw => CODEC_DISC_RAW,
    }
}

impl CodecCapabilities {
    /// The endpoint encodes the codec in hardware.
    pub open spec fn hw_encodes(self, codec: Codec) -> bool {
        bit(self.hw_encode_mask, discriminant(codec)) && !(self.is_apple && codec == Codec::Av1)
    }

    /// The endpoint decodes the codec.
    pub open spec fn decodes(self, codec: Codec) -> bool {
        bit(self.hw_decode_mask, discriminant(codec)) || (self.is_browser && codec == Codec::H264)
    }

    /// The capabilities that an offer or answer carries.
    pub fn from_wire(wire: &CodecCapsPayload) -> (r: Self)
        ensures
            r == (CodecCapabilities {
                hw_encode_mask: wire.hw_encode_mask,
                hw_decode_mask: wire.hw_decode_mask,
                sw_h264_encode_available: wire.sw_h264_encode_available,
                is_apple: wire.is_apple,
                is_browser: wire.is_browser,
            }),
    {
        CodecCapabilities {
            hw_encode_mask: wire.hw_encode_mask,
            hw_decode_mask: wire.hw_decode_mask,
            sw_h264_encode_available: wire.sw_h264_encode_available,
            is_apple: wire.is_apple,
            is_browser: wire.is_browser,
        }
    }

    /// The offer that advertises these capabilities; it selects nothing yet. A peer reads back
    /// the same capabilities.
    pub fn to_wire_offer(&self) -> (r: CodecCapsPayload)
        ensures
            r == (CodecCapsPayload {
                hw_encode_mask: self.hw_encode_mask,
                hw_decode_mask: self.hw_decode_mask,
                sw_h264_encode_available: self.sw_h264_encode_available,
                is_apple: self.is_apple,
                is_browser: self.is_browser,
                selected_codec: None,
            }),
    {
        CodecCapsPayload {
            hw_encode_mask: self.hw_encode_mask,
            hw_decode_mask: self.hw_decode_mask,
            sw_h264_encode_available: self.sw_h264_encode_available,
            is_apple: self.is_apple,
            is_browser: self.is_browser,
            selected_codec: None,
        }
    }

    fn can_hw_encode(&self, disc: u8) -> (r: bool)
        requires
            disc < 8,
        ensures
            r == bit(self.hw_encode_mask, disc),
    {
        (self.hw_encode_mask >> disc) & 1 == 1
    }

    fn can_hw_decode(&self, disc: u8) -> (r: bool)
        requires
            disc < 8,
        ensures
            r == bit(self.hw_decode_mask, disc),
    {
        (self.hw_decode_mask >> disc) & 1 == 1
    }

    fn can_decode(&self, disc: u8) -> (r: bool)
        requires
            disc < 8,
        ensures
            r == (bit(self.hw_decode_mask, disc) || (self.is_browser && disc == CODEC_DISC_H264)),
    {
        self.can_hw_decode(disc) || (self.is_browser && disc == CODEC_DISC_H264)
    }
}

/// One rung of the ladder.
#[derive(Debug, Clone, Copy, PartialEq, Eq, Structural)]
pub struct CodecChoice {
    /// The codec.
    pub codec: Codec,
    /// Whether it is encoded in hardware.
    pub hardware: bool,
    /// Whether the bitrate must be capped, as for software H.264.
    pub rate_limited: bool,
}

impl CodecChoice {
    /// A hardware rung.
    pub open spec fn hw_rung(codec: Codec) -> CodecChoice {
        CodecChoice { codec, hardware: true, rate_limited: false }
    }

    /// The software rung.
    pub open spec fn sw_rung() -> CodecChoice {
        CodecChoice { codec: Codec::H264, hardware: false, rate_limited: true }
    }

    /// A hardware rung.
    pub fn hw(codec: Codec) -> (r: Self)
        ensures
            r == CodecChoice::hw_rung(codec),
    {
        CodecChoice { codec, hardware: true, rate_limited: false }
    }

    /// The software rung.
    pub fn sw_h264() -> (r: Self)
        ensures
            r == CodecChoice::sw_rung(),
    {
        CodecChoice { codec: Codec::H264, hardware: false, rate_limited: true }
    }
}

/// The wire discriminant of a rung's codec.
pub fn choice_to_discriminant(choice: &CodecChoice) -> (r: u8)
    ensures
        r == discriminant(choice.codec),
{
    match choice.codec {
        Codec::H264 => CODEC_DISC_H264,
        Codec::H265 => CODEC_DISC_H265,
        Codec::Av1 => CODEC_DISC_AV1,
        Codec::Raw => CODEC_DISC_RAW,
    }
}

/// The rungs that a build considers for a kind of content, best first.
pub open spec fn candidates(mode: ContentMode, flavor: BuildFlavor) -> Seq<CodecChoice> {
    match flavor {
        BuildFlavor::Commercial => seq![
            CodecChoice::hw_rung(Codec::H265),
            CodecChoice::hw_rung(Codec::Av1),
            CodecChoice::hw_rung(Codec::H264),
        ],
        BuildFlavor::Oss => if mode == ContentMode::Work {
            seq![CodecChoice::hw_rung(Codec::Av1), CodecChoice::hw_rung(Codec::H264)]
        } else {
            seq![
                CodecChoice::hw_rung(Codec::Av1),
                CodecChoice::hw_rung(Codec::H264),
                CodecChoice::sw_rung(),
            ]
        },
    }
}

/// The local endpoint can encode the rung and the remote one can decode it.
pub open spec fn viable(
    rung: CodecChoice,
    local: CodecCapabilities,
    remote: CodecCapabilities,
) -> bool {
    &&& if rung.hardware {
        local.hw_encodes(rung.codec)
    } else {
        rung.codec == Codec::H264 && local.sw_h264_encode_available
    }
    &&& remote.decodes(rung.codec)
}

/// The candidates that both endpoints support, best first.
pub open spec fn ladder_of(
    local: CodecCapabilities,
    remote: CodecCapabilities,
    mode: ContentMode,
    flavor: BuildFlavor,
) -> Seq<CodecChoice> {
    candidates(mode, flavor).filter(|c: CodecChoice| viable(c, local, remote))
}

/// Where a rung first stands in a ladder; the length of the ladder when it does not.
pub open spec fn first_index(rung: CodecChoice, ladder: Seq<CodecChoice>) -> nat
    decreases ladder.len(),
{
    if ladder.len() == 0 || ladder[0] == rung {
        0
    } else {
        1 + first_index(rung, ladder.skip(1))
    }
}

/// The best rung; none when the ladder is empty.
pub open spec fn selected(ladder: Seq<CodecChoice>) -> Option<CodecChoice> {
    if ladder.len() > 0 {
        Some(ladder[0])
    } else {
        None
    }
}

/// The rung below the first occurrence of `current`, if there is one.
pub open spec fn below(current: CodecChoice, ladder: Seq<CodecChoice>) -> Option<CodecChoice> {
    if first_index(current, ladder) + 1 < ladder.len() {
        Some(ladder[first_index(current, ladder) as int + 1])
    } else {
        None
    }
}

/// Builds ladders and steps down them.
pub struct CodecNegotiator;

impl CodecNegotiator {
    /// The codecs that both endpoints support, best first.
    pub fn ladder(
        local: &CodecCapabilities,
        remote: &CodecCapabilities,
        mode: ContentMode,
        flavor: BuildFlavor,
    ) -> (r: Vec<CodecChoice>)
        ensures
            r@ == ladder_of(*local, *remote, mode, flavor),
    {
        let rungs = Self::candidate_rungs(mode, flavor);
        let ghost pred = |c: CodecChoice| viable(c, *local, *remote);
        let mut out: Vec<CodecChoice> = Vec::new();
        let mut i: usize = 0;
        proof {
            reveal(Seq::filter);
        }
        while i < rungs.len()
            invariant
                i <= rungs@.len(),
                pred == (|c: CodecChoice| viable(c, *local, *remote)),
                out@ == rungs@.take(i as int).filter(pred),
            decreases rungs@.len() - i,
        {
            let ghost done = rungs@.take(i as int);
            if Self::rung_is_viable(rungs[i], local, remote) {
                out.push(rungs[i]);
            }
            i = i + 1;
            proof {
                reveal(Seq::filter);
                assert(rungs@.take(i as int).drop_last() =~= done);
            }
        }
        assert(rungs@.take(i as int) =~= rungs@);
        out
    }

    /// The best rung; none when the ladder is empty.
    pub fn select(ladder: &[CodecChoice]) -> (r: Option<CodecChoice>)
        ensures
            r == selected(ladder@),
    {
        if ladder.len() > 0 {
            Some(ladder[0])
        } else {
            None
        }
    }

    /// The rung below the first occurrence of `current`; none when there is none below, or when
    /// the ladder does not hold `current`.
    pub fn degrade(current: &CodecChoice, ladder: &[CodecChoice]) -> (r: Option<CodecChoice>)
        ensures
            r == below(*current, ladder@),
    {
        let mut i: usize = 0;
        assert(ladder@.skip(0) =~= ladder@);
        while i < ladder.len()
            invariant
                i <= ladder@.len(),
                first_index(*current, ladder@) == i + first_index(*current, ladder@.skip(i as int)),
            decreases ladder@.len() - i,
        {
            assert(ladder@.skip(i as int)[0] == ladder@[i as int]);
            if ladder[i] == *current {
                return if i + 1 < ladder.len() {
                    Some(ladder[i + 1])
                } else {
                    None
                };
            }
            assert(ladder@.skip(i as int).skip(1) =~= ladder@.skip(i as int + 1));
            i = i + 1;
        }
        None
    }

    fn candidate_rungs(mode: ContentMode, flavor: BuildFlavor) -> (r: Vec<CodecChoice>)
        ensures
            r@ == candidates(mode, flavor),
    {
        let mut rungs: Vec<CodecChoice> = Vec::new();
        if flavor == BuildFlavor::Commercial {
            rungs.push(CodecChoice::hw(Codec::H265));
        }
        rungs.push(CodecChoice::hw(Codec::Av1));
        rungs.push(CodecChoice::hw(Codec::H264));
        if flavor == BuildFlavor::Oss && mode != ContentMode::Work {
            rungs.push(CodecChoice::sw_h264());
        }
        assert(rungs@ =~= candidates(mode, flavor));
        rungs
    }

    fn rung_is_viable(
        candidate: CodecChoice,
        local: &CodecCapabilities,
        remote: &CodecCapabilities,
    ) -> (r: bool)
        ensures
            r == viable(candidate, *local, *remote),
    {
        let disc: u8 = choice_to_discriminant(&candidate);
        let encodes = if candidate.hardware {
            if local.is_apple && disc == CODEC_DISC_AV1 {
                false
            } else {
                local.can_hw_encode(disc)
            }
        } else {
            disc == CODEC_DISC_H264 && local.sw_h264_encode_available
        };
        encodes && remote.can_decode(disc)
    }
}

/// How far down the order of preference a rung stands.
pub open spec fn rank(rung: CodecChoice) -> int {
    match rung.codec {
        Codec::H265 => 0,
        Codec::Av1 => 1,
        Codec::H264 => if rung.hardware {
            2
        } else {
            3
        },
        Codec::Raw => 4,
    }
}

/// Every rung of a ladder is a candidate that the local endpoint can encode and the remote one can
/// decode, and no such candidate is left out.
pub proof fn law_rungs_are_mutually_supported(
    local: CodecCapabilities,
    remote: CodecCapabilities,
    mode: ContentMode,
    flavor: BuildFlavor,
    rung: CodecChoice,
)
    ensures
        ladder_of(local, remote, mode, flavor).contains(rung) <==> candidates(
            mode,
            flavor,
        ).contains(rung) && viable(rung, local, remote),
{
    broadcast use vstd::seq_lib::group_filter_ensures;

    let pred = |c: CodecChoice| viable(c, local, remote);
    let all = candidates(mode, flavor);
    if all.filter(pred).contains(rung) {
        all.lemma_filter_contains_rev(pred, rung);
        let i = choose|i: int| 0 <= i < all.filter(pred).len() && all.filter(pred)[i] == rung;
        assert(pred(all.filter(pred)[i]));
    }
    if all.contains(rung) && viable(rung, local, remote) {
        let i = choose|i: int| 0 <= i < all.len() && all[i] == rung;
        assert(pred(all[i]));
        assert(all.filter(pred).contains(all[i]));
    }
}

/// A ladder keeps the order of preference: H.265, AV1, hardware H.264, software H.264.
pub proof fn law_ladder_keeps_preference(
    local: CodecCapabilities,
    remote: CodecCapabilities,
    mode: ContentMode,
    flavor: BuildFlavor,
    i: int,
    j: int,
)
    requires
        0 <= i < j < ladder_of(local, remote, mode, flavor).len(),
    ensures
        rank(ladder_of(local, remote, mode, flavor)[i]) < rank(
            ladder_of(local, remote, mode, flavor)[j],
        ),
{
    let pred = |c: CodecChoice| viable(c, local, remote);
    let all = candidates(mode, flavor);
    lemma_filter_keeps_order(all, pred);
}

/// Filtering keeps an order by rank.
proof fn lemma_filter_keeps_order(s: Seq<CodecChoice>, pred: spec_fn(CodecChoice) -> bool)
    requires
        forall|i: int, j: int| 0 <= i < j < s.len() ==> rank(s[i]) < rank(s[j]),
    ensures
        forall|i: int, j: int|
            0 <= i < j < s.filter(pred).len() ==> rank(s.filter(pred)[i]) < rank(s.filter(pred)[j]),
        forall|i: int|
            0 <= i < s.filter(pred).len() ==> s.len() > 0 && rank(#[trigger] s.filter(pred)[i])
                <= rank(s.last()),
    decreases s.len(),
{
    reveal(Seq::filter);
    if s.len() > 0 {
        let t = s.drop_last();
        lemma_filter_keeps_order(t, pred);
        let kept = t.filter(pred);
        let out = s.filter(pred);
        assert(out == if pred(s.last()) {
            kept.push(s.last())
        } else {
            kept
        });
        assert forall|i: int| 0 <= i < kept.len() implies rank(#[trigger] kept[i]) < rank(
            s.last(),
        ) by {
            assert(t.last() == s[s.len() - 2]);
        }
        assert forall|i: int| 0 <= i < out.len() implies rank(#[trigger] out[i]) <= rank(
            s.last(),
        ) by {
            if i < kept.len() {
                assert(out[i] == kept[i]);
            }
        }
        assert forall|i: int, j: int| 0 <= i < j < out.len() implies rank(#[trigger] out[i]) < rank(
            #[trigger] out[j],
        ) by {
            assert(out[i] == kept[i]);
            if j < kept.len() {
                assert(out[j] == kept[j]);
            }
        }
    }
}

/// An open-source build never offers H.265, whatever the endpoints advertise.
pub proof fn law_oss_never_offers_h265(
    local: CodecCapabilities,
    remote: CodecCapabilities,
    mode: ContentMode,
    rung: CodecChoice,
)
    requires
        ladder_of(local, remote, mode, BuildFlavor::Oss).contains(rung),
    ensures
        rung.codec != Codec::H265,
        discriminant(rung.codec) != CODEC_DISC_H265,
{
    law_rungs_are_mutually_supported(local, remote, mode, BuildFlavor::Oss, rung);
}

/// Work content is never encoded in software, and neither is any content in a commercial build.
pub proof fn law_work_never_encodes_in_software(
    local: CodecCapabilities,
    remote: CodecCapabilities,
    mode: ContentMode,
    flavor: BuildFlavor,
    rung: CodecChoice,
)
    requires
        mode == ContentMode::Work || flavor == BuildFlavor::Commercial,
        ladder_of(local, remote, mode, flavor).contains(rung),
    ensures
        rung.hardware,
        !rung.rate_limited,
{
    law_rungs_are_mutually_supported(local, remote, mode, flavor, rung);
}

/// An Apple host never encodes AV1.
pub proof fn law_apple_never_encodes_av1(
    local: CodecCapabilities,
    remote: CodecCapabilities,
    mode: ContentMode,
    flavor: BuildFlavor,
    rung: CodecChoice,
)
    requires
        local.is_apple,
        ladder_of(local, remote, mode, flavor).contains(rung),
    ensures
        rung.codec != Codec::Av1,
{
    law_rungs_are_mutually_supported(local, remote, mode, flavor, rung);
}

/// H.264 is reachable for every browser, whatever it advertises, when the host encodes H.264 in
/// hardware.
pub proof fn law_browser_always_reaches_h264(
    local: CodecCapabilities,
    remote: CodecCapabilities,
    mode: ContentMode,
    flavor: BuildFlavor,
)
    requires
        remote.is_browser,
        local.hw_encodes(Codec::H264),
    ensures
        ladder_of(local, remote, mode, flavor).contains(CodecChoice::hw_rung(Codec::H264)),
{
    let h264 = CodecChoice::hw_rung(Codec::H264);
    let all = candidates(mode, flavor);
    assert(all[if flavor == BuildFlavor::Commercial {
        2int
    } else {
        1int
    }] == h264);
    law_rungs_are_mutually_supported(local, remote, mode, flavor, h264);
}

/// Where hardware is missing, an open-source build falls back to software H.264 for every content
/// but work.
pub proof fn law_software_is_the_last_resort(
    local: CodecCapabilities,
    remote: CodecCapabilities,
    mode: ContentMode,
)
    requires
        mode != ContentMode::Work,
        local.sw_h264_encode_available,
        remote.decodes(Codec::H264),
    ensures
        ({
            let ladder = ladder_of(local, remote, mode, BuildFlavor::Oss);
            ladder.len() > 0 && ladder.last() == CodecChoice::sw_rung()
        }),
{
    let sw = CodecChoice::sw_rung();
    let all = candidates(mode, BuildFlavor::Oss);
    assert(all[2] == sw);
    law_rungs_are_mutually_supported(local, remote, mode, BuildFlavor::Oss, sw);
    let ladder = ladder_of(local, remote, mode, BuildFlavor::Oss);
    let i = choose|i: int| 0 <= i < ladder.len() && ladder[i] == sw;
    if i < ladder.len() - 1 {
        law_ladder_keeps_preference(local, remote, mode, BuildFlavor::Oss, i, ladder.len() - 1);
        law_rungs_are_mutually_supported(local, remote, mode, BuildFlavor::Oss, ladder.last());
        assert(ladder.contains(ladder.last()));
    }
}

/// Scrolling content follows the rules of full-motion content.
pub proof fn law_scrolling_follows_game(
    local: CodecCapabilities,
    remote: CodecCapabilities,
    flavor: BuildFlavor,
)
    ensures
        ladder_of(local, remote, ContentMode::Scrolling, flavor) == ladder_of(
            local,
            remote,
            ContentMode::Game,
            flavor,
        ),
{
}

/// Stepping down from a rung of a ladder leads to the one below it, and from the last to none: so
/// repeated steps visit every rung once and end.
pub proof fn law_degrade_visits_every_rung(
    local: CodecCapabilities,
    remote: CodecCapabilities,
    mode: ContentMode,
    flavor: BuildFlavor,
    i: int,
)
    requires
        0 <= i < ladder_of(local, remote, mode, flavor).len(),
    ensures
        ({
            let ladder = ladder_of(local, remote, mode, flavor);
            first_index(ladder[i], ladder) == i
        }),
{
    let ladder = ladder_of(local, remote, mode, flavor);
    assert forall|a: int, b: int| 0 <= a < b < ladder.len() implies ladder[a] != ladder[b] by {
        law_ladder_keeps_preference(local, remote, mode, flavor, a, b);
    }
    lemma_first_index_of_distinct(ladder, i);
}

/// In a ladder without repetition, a rung first stands where it stands.
proof fn lemma_first_index_of_distinct(ladder: Seq<CodecChoice>, i: int)
    requires
        0 <= i < ladder.len(),
        forall|a: int, b: int| 0 <= a < b < ladder.len() ==> ladder[a] != ladder[b],
    ensures
        first_index(ladder[i], ladder) == i,
    decreases ladder.len(),
{
    if i > 0 {
        let t = ladder.skip(1);
        assert(t[i - 1] == ladder[i]);
        lemma_first_index_of_distinct(t, i - 1);
    }
}

/// What a mask of capabilities says of a codec: the lowest bit is H.264's, the next H.265's, and the
/// third AV1's.
proof fn lemma_bits_of_a_mask(mask: u8)
    ensures
        bit(mask, discriminant(Codec::H264)) <==> mask & 1 == 1,
        bit(mask, discriminant(Codec::H265)) <==> mask & 2 == 2,
        bit(mask, discriminant(Codec::Av1)) <==> mask & 4 == 4,
{
    assert((mask >> 0) & 1 == 1 <==> mask & 1 == 1) by (bit_vector);
    assert((mask >> 1) & 1 == 1 <==> mask & 2 == 2) by (bit_vector);
    assert((mask >> 2) & 1 == 1 <==> mask & 4 == 4) by (bit_vector);
}

/// What is on the ladder follows from what the endpoints advertise. AV1 is on it when the host
/// encodes and the peer decodes it and the host is no Apple device; H.265 when both support it and
/// the build is a commercial one; hardware H.264 when the host encodes it and the peer decodes it or
/// is a browser; software H.264 when the host has it, the peer decodes H.264 or is a browser, the
/// build is an open-source one, and the content is not work. Nothing else about the endpoints
/// matters, and no other rung is on it.
pub proof fn law_ladder_follows_from_the_masks(
    local: CodecCapabilities,
    remote: CodecCapabilities,
    mode: ContentMode,
    flavor: BuildFlavor,
    rung: CodecChoice,
)
    ensures
        ({
            let ladder = ladder_of(local, remote, mode, flavor);
            let (enc, dec) = (local.hw_encode_mask, remote.hw_decode_mask);
            let av1 = CodecChoice { codec: Codec::Av1, hardware: true, rate_limited: false };
            let h265 = CodecChoice { codec: Codec::H265, hardware: true, rate_limited: false };
            let h264 = CodecChoice { codec: Codec::H264, hardware: true, rate_limited: false };
            let soft = CodecChoice { codec: Codec::H264, hardware: false, rate_limited: true };
            &&& ladder.contains(av1) <==> enc & 4 == 4 && dec & 4 == 4 && !local.is_apple
            &&& ladder.contains(h265) <==> enc & 2 == 2 && dec & 2 == 2 && flavor
                == BuildFlavor::Commercial
            &&& ladder.contains(h264) <==> enc & 1 == 1 && (dec & 1 == 1 || remote.is_browser)
            &&& ladder.contains(soft) <==> local.sw_h264_encode_available && (dec & 1 == 1
                || remote.is_browser) && flavor == BuildFlavor::Oss && mode != ContentMode::Work
            &&& ladder.contains(rung) ==> rung == av1 || rung == h265 || rung == h264 || rung
                == soft
        }),
{
    let av1 = CodecChoice { codec: Codec::Av1, hardware: true, rate_limited: false };
    let h265 = CodecChoice { codec: Codec::H265, hardware: true, rate_limited: false };
    let h264 = CodecChoice { codec: Codec::H264, hardware: true, rate_limited: false };
    let soft = CodecChoice { codec: Codec::H264, hardware: false, rate_limited: true };
    let all = candidates(mode, flavor);
    lemma_bits_of_a_mask(local.hw_encode_mask);
    lemma_bits_of_a_mask(remote.hw_decode_mask);
    law_rungs_are_mutually_supported(local, remote, mode, flavor, av1);
    law_rungs_are_mutually_supported(local, remote, mode, flavor, h265);
    law_rungs_are_mutually_supported(local, remote, mode, flavor, h264);
    law_rungs_are_mutually_supported(local, remote, mode, flavor, soft);
    law_rungs_are_mutually_supported(local, remote, mode, flavor, rung);
    if flavor == BuildFlavor::Commercial {
        assert(all[0] == h265 && all[1] == av1 && all[2] == h264);
    } else {
        assert(all[0] == av1 && all[1] == h264);
        if mode != ContentMode::Work {
            assert(all[2] == soft);
        }
    }
}

/// The ladder is in order of preference, H.265 before AV1 before hardware H.264 before software
/// H.264, and holds no rung twice.
pub proof fn law_ladder_is_in_order(
    local: CodecCapabilities,
    remote: CodecCapabilities,
    mode: ContentMode,
    flavor: BuildFlavor,
    i: int,
    j: int,
)
    requires
        0 <= i < j < ladder_of(local, remote, mode, flavor).len(),
    ensures
        ({
            let upper = ladder_of(local, remote, mode, flavor)[i];
            let lower = ladder_of(local, remote, mode, flavor)[j];
            &&& upper != lower
            &&& lower.codec != Codec::H265
            &&& lower.codec == Codec::Av1 ==> upper.codec == Codec::H265
            &&& lower.codec == Codec::H264 && lower.hardware ==> upper.codec != Codec::H264
            &&& upper.codec == Codec::H264 ==> upper.hardware && !lower.hardware
        }),
{
    law_ladder_keeps_preference(local, remote, mode, flavor, i, j);
    let ladder = ladder_of(local, remote, mode, flavor);
    assert(ladder.contains(ladder[i]));
    assert(ladder.contains(ladder[j]));
    law_ladder_follows_from_the_masks(local, remote, mode, flavor, ladder[i]);
    law_ladder_follows_from_the_masks(local, remote, mode, flavor, ladder[j]);
}

/// A rung is looked up where it first stands: before that there is no such rung, and a ladder that
/// does not hold it is gone through to its end.
pub proof fn law_rung_is_found_where_it_first_stands(rung: CodecChoice, ladder: Seq<CodecChoice>)
    ensures
        first_index(rung, ladder) <= ladder.len(),
        first_index(rung, ladder) < ladder.len() <==> ladder.contains(rung),
        first_index(rung, ladder) < ladder.len() ==> ladder[first_index(rung, ladder) as int]
            == rung,
        forall|k: int| 0 <= k < first_index(rung, ladder) ==> #[trigger] ladder[k] != rung,
    decreases ladder.len(),
{
    if ladder.len() == 0 {
        assert(!ladder.contains(rung));
    } else if ladder[0] == rung {
        assert(ladder.contains(rung));
    } else {
        let rest = ladder.skip(1);
        law_rung_is_found_where_it_first_stands(rung, rest);
        let at = first_index(rung, rest) as int;
        if at < rest.len() {
            assert(ladder[at + 1] == rest[at]);
            assert(ladder.contains(rung));
        } else {
            assert forall|k: int| 0 <= k < ladder.len() implies ladder[k] != rung by {
                if k > 0 {
                    assert(ladder[k] == rest[k - 1]);
                }
            }
        }
        assert forall|k: int| 0 <= k < first_index(rung, ladder) implies #[trigger] ladder[k]
            != rung by {
            if k > 0 {
                assert(ladder[k] == rest[k - 1]);
            }
        }
    }
}

/// On the wire H.264 is 0, H.265 is 1, AV1 is 2 and raw pixels are 3.
pub proof fn law_wire_discriminants()
    ensures
        discriminant(Codec::H264) == 0,
        discriminant(Codec::H265) == 1,
        discriminant(Codec::Av1) == 2,
        discriminant(Codec::Raw) == 3,
{
}

/// The best codec that both endpoints support is selected: H.265 in a commercial build, else AV1,
/// else H.264 in hardware, else H.264 in software. None is selected only where there is none.
pub proof fn law_the_best_common_codec_is_selected(
    local: CodecCapabilities,
    remote: CodecCapabilities,
    mode: ContentMode,
    flavor: BuildFlavor,
)
    ensures
        ({
            let choice = selected(ladder_of(local, remote, mode, flavor));
            let (enc, dec) = (local.hw_encode_mask, remote.hw_decode_mask);
            let h265 = enc & 2 == 2 && dec & 2 == 2 && flavor == BuildFlavor::Commercial;
            let av1 = enc & 4 == 4 && dec & 4 == 4 && !local.is_apple;
            let h264 = enc & 1 == 1 && (dec & 1 == 1 || remote.is_browser);
            let soft = local.sw_h264_encode_available && (dec & 1 == 1 || remote.is_browser)
                && flavor == BuildFlavor::Oss && mode != ContentMode::Work;
            &&& choice is None <==> !h265 && !av1 && !h264 && !soft
            &&& choice matches Some(c) ==> {
                &&& c.codec == Codec::H265 <==> h265
                &&& c.codec == Codec::Av1 <==> av1 && !h265
                &&& c.codec == Codec::H264 && c.hardware <==> h264 && !av1 && !h265
                &&& c.codec == Codec::H264 && !c.hardware <==> soft && !h264 && !av1 && !h265
                &&& c.rate_limited == !c.hardware
            }
        }),
{
    let ladder = ladder_of(local, remote, mode, flavor);
    let av1 = CodecChoice { codec: Codec::Av1, hardware: true, rate_limited: false };
    let h265 = CodecChoice { codec: Codec::H265, hardware: true, rate_limited: false };
    let h264 = CodecChoice { codec: Codec::H264, hardware: true, rate_limited: false };
    let soft = CodecChoice { codec: Codec::H264, hardware: false, rate_limited: true };
    law_ladder_follows_from_the_masks(local, remote, mode, flavor, av1);
    assert forall|j: int| 0 < j < ladder.len() implies {
        let upper = ladder[0];
        let lower = #[trigger] ladder[j];
        &&& upper != lower
        &&& lower.codec != Codec::H265
        &&& lower.codec == Codec::Av1 ==> upper.codec == Codec::H265
        &&& lower.codec == Codec::H264 && lower.hardware ==> upper.codec != Codec::H264
        &&& upper.codec == Codec::H264 ==> upper.hardware && !lower.hardware
    } by {
        law_ladder_is_in_order(local, remote, mode, flavor, 0, j);
    }
    if ladder.len() > 0 {
        assert(ladder.contains(ladder[0]));
        law_ladder_follows_from_the_masks(local, remote, mode, flavor, ladder[0]);
    }
}

/// Stepping down from a rung leads to the rung right below it. From the last rung, and from one
/// that is not on the ladder, it leads nowhere.
pub proof fn law_degrade_leads_one_rung_down(
    local: CodecCapabilities,
    remote: CodecCapabilities,
    mode: ContentMode,
    flavor: BuildFlavor,
    i: int,
    stranger: CodecChoice,
)
    requires
        0 <= i < ladder_of(local, remote, mode, flavor).len(),
        !ladder_of(local, remote, mode, flavor).contains(stranger),
    ensures
        ({
            let ladder = ladder_of(local, remote, mode, flavor);
            &&& i + 1 < ladder.len() ==> below(ladder[i], ladder) == Some(ladder[i + 1])
            &&& i + 1 == ladder.len() ==> below(ladder[i], ladder) is None
            &&& below(stranger, ladder) is None
        }),
{
    let ladder = ladder_of(local, remote, mode, flavor);
    law_degrade_visits_every_rung(local, remote, mode, flavor, i);
    law_rung_is_found_where_it_first_stands(stranger, ladder);
}

/// On any list of rungs, even one that holds a rung more than once, the first place counts.
pub proof fn law_degrade_goes_by_the_first_place(
    current: CodecChoice,
    ladder: Seq<CodecChoice>,
    i: int,
)
    requires
        0 <= i < ladder.len(),
        ladder[i] == current,
        forall|k: int| 0 <= k < i ==> #[trigger] ladder[k] != current,
    ensures
        i + 1 < ladder.len() ==> below(current, ladder) == Some(ladder[i + 1]),
        i + 1 == ladder.len() ==> below(current, ladder) is None,
{
    law_rung_is_found_where_it_first_stands(current, ladder);
    assert(ladder.contains(current));
    let at = first_index(current, ladder) as int;
    assert(ladder[at] == current);
}

} // verus!
