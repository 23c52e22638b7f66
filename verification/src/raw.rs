//! A lossless raw video codec: the pixels of a frame behind a self-describing header.
//!
//! The header is `version (1) | format (1) | width (4, big-endian) | height (4, big-endian)`.
//! Decoding treats the bitstream as untrusted.
use vstd::prelude::*;

use crate::buffer::{as_slice, from_vec, slice_from};
use crate::media::{
    Codec, DecoderCaps, EncodedPacket, EncoderCaps, FrameType, MediaError, PixelFormat, Resolution,
    VideoDecoder, VideoEncoder, VideoFrame,
};
use crate::text::push_decimal;

verus! {

/// Length of the header.
pub const RAW_HEADER_LEN: usize = 10;

/// Version of the bitstream.
pub const RAW_VERSION: u8 = 1;

/// The byte that stands for a format.
pub open spec fn format_code(format: PixelFormat) -> u8 {
    match format {
        PixelFormat::Bgra8 => 0,
        PixelFormat::I420 => 1,
        PixelFormat::Nv12 => 2,
    }
}

/// The four bytes of `v`, most significant first.
pub open spec fn be_bytes(v: u32) -> Seq<u8> {
    seq![
        (v / 0x100_0000) as u8,
        (v / 0x1_0000 % 0x100) as u8,
        (v / 0x100 % 0x100) as u8,
        (v % 0x100) as u8,
    ]
}

/// The number whose four bytes, most significant first, stand at `at` in `s`.
pub open spec fn be_value(s: Seq<u8>, at: int) -> u32 {
    (s[at] * 0x100_0000 + s[at + 1] * 0x1_0000 + s[at + 2] * 0x100 + s[at + 3]) as u32
}

/// Reading back the four bytes of a number gives the number.
pub proof fn lemma_be_roundtrip(v: u32, s: Seq<u8>, at: int)
    requires
        0 <= at,
        at + 4 <= s.len(),
        s.subrange(at, at + 4) == be_bytes(v),
    ensures
        be_value(s, at) == v,
{
    let b = s.subrange(at, at + 4);
    assert(b[0] == s[at] && b[1] == s[at + 1] && b[2] == s[at + 2] && b[3] == s[at + 3]);
}

/// Four bytes are those of the number they stand for.
pub proof fn lemma_be_value_bytes(s: Seq<u8>, at: int)
    requires
        0 <= at,
        at + 4 <= s.len(),
    ensures
        be_bytes(be_value(s, at)) == s.subrange(at, at + 4),
{
    let (a, b, c, d) = (s[at] as int, s[at + 1] as int, s[at + 2] as int, s[at + 3] as int);
    let v = be_value(s, at) as int;
    assert(v == a * 0x100_0000 + b * 0x1_0000 + c * 0x100 + d);
    assert(v / 0x100_0000 == a);
    assert(v / 0x1_0000 == a * 0x100 + b);
    assert(v / 0x100 == a * 0x1_0000 + b * 0x100 + c);
    assert(v % 0x100 == d);
    assert((v / 0x1_0000) % 0x100 == b);
    assert((v / 0x100) % 0x100 == c);
    assert(be_bytes(be_value(s, at)) =~= s.subrange(at, at + 4));
}

/// Append the four bytes of `v`, most significant first.
pub(crate) fn push_be(out: &mut Vec<u8>, v: u32)
    ensures
        final(out)@ == old(out)@ + be_bytes(v),
{
    out.push((v / 0x100_0000) as u8);
    out.push((v / 0x1_0000 % 0x100) as u8);
    out.push((v / 0x100 % 0x100) as u8);
    out.push((v % 0x100) as u8);
    assert(out@ =~= old(out)@ + be_bytes(v));
}

/// Read the number whose four bytes, most significant first, stand at `at`.
pub(crate) fn read_be(s: &[u8], at: usize) -> (r: u32)
    requires
        at + 4 <= s@.len(),
    ensures
        r == be_value(s@, at as int),
{
    (s[at] as u32) * 0x100_0000 + (s[at + 1] as u32) * 0x1_0000 + (s[at + 2] as u32) * 0x100 + (
    s[at + 3] as u32)
}

/// Append the bytes of `s`.
pub(crate) fn push_all(out: &mut Vec<u8>, s: &[u8])
    ensures
        final(out)@ == old(out)@ + s@,
{
    let mut i: usize = 0;
    while i < s.len()
        invariant
            i <= s@.len(),
            out@ == old(out)@ + s@.take(i as int),
        decreases s@.len() - i,
    {
        out.push(s[i]);
        i = i + 1;
        assert(s@.take(i as int) =~= s@.take(i - 1).push(s@[i - 1]));
    }
    assert(s@.take(i as int) =~= s@);
}

fn format_to_u8(format: PixelFormat) -> (r: u8)
    ensures
        r == format_code(format),
{
    match format {
        PixelFormat::Bgra8 => 0,
        PixelFormat::I420 => 1,
        PixelFormat::Nv12 => 2,
    }
}

fn format_from_u8(byte: u8) -> (r: Option<PixelFormat>)
    ensures
        r is Some <==> byte <= 2,
        r matches Some(format) ==> format_code(format) == byte,
{
    match byte {
        0 => Some(PixelFormat::Bgra8),
        1 => Some(PixelFormat::I420),
        2 => Some(PixelFormat::Nv12),
        _ => None,
    }
}

/// The bitstream of a frame.
pub open spec fn raw_bitstream(frame: VideoFrame) -> Seq<u8> {
    seq![RAW_VERSION, format_code(frame.format)] + be_bytes(frame.resolution.width) + be_bytes(
        frame.resolution.height,
    ) + frame.pixels()
}

/// Why a packet cannot be decoded, as a message; `None` when it can. The checks come in this
/// order: codec, header, version, format, size, length.
pub open spec fn raw_fault(packet: EncodedPacket) -> Option<Seq<char>> {
    let s = packet.bitstream();
    let r = raw_resolution(packet);
    if packet.codec != Codec::Raw {
        Some("raw: unexpected codec "@ + packet.codec.label())
    } else if s.len() < RAW_HEADER_LEN {
        Some("raw: truncated header"@)
    } else if s[0] != RAW_VERSION {
        Some("raw: unknown version "@ + crate::text::decimal(s[0] as nat))
    } else if s[1] > 2 {
        Some("raw: bad format "@ + crate::text::decimal(s[1] as nat))
    } else if r.width == 0 || r.height == 0 {
        Some("raw: zero-dimension frame"@)
    } else if s.len() - RAW_HEADER_LEN != raw_format(packet).bytes_for(r) {
        Some(
            "raw: pixel length "@ + crate::text::decimal((s.len() - RAW_HEADER_LEN) as nat)
                + " != expected "@ + crate::text::decimal(raw_format(packet).saturated_len(r) as nat),
        )
    } else {
        None
    }
}

/// The format that the header of a packet declares.
pub open spec fn raw_format(packet: EncodedPacket) -> PixelFormat {
    if packet.bitstream()[1] == 0 {
        PixelFormat::Bgra8
    } else if packet.bitstream()[1] == 1 {
        PixelFormat::I420
    } else {
        PixelFormat::Nv12
    }
}

/// The size that the header of a packet declares.
pub open spec fn raw_resolution(packet: EncodedPacket) -> Resolution {
    Resolution {
        width: be_value(packet.bitstream(), 2),
        height: be_value(packet.bitstream(), 6),
    }
}

/// `frame` is what `packet` decodes to.
pub open spec fn raw_decodes_to(packet: EncodedPacket, frame: VideoFrame) -> bool {
    &&& frame.pixels() == packet.bitstream().skip(RAW_HEADER_LEN as int)
    &&& frame.format == raw_format(packet)
    &&& frame.resolution == raw_resolution(packet)
    &&& frame.frame_id == packet.frame_id
    &&& frame.capture_ts_us == packet.capture_ts_us
}

/// `packet` is what `frame` encodes to.
pub open spec fn raw_encodes_to(frame: VideoFrame, packet: EncodedPacket) -> bool {
    &&& packet.bitstream() == raw_bitstream(frame)
    &&& packet.codec == Codec::Raw
    &&& packet.frame_id == frame.frame_id
    &&& packet.capture_ts_us == frame.capture_ts_us
    &&& packet.frame_type is Idr
}

/// Lossless raw encoder.
#[derive(Debug, Clone, Copy)]
pub struct RawEncoder;

impl RawEncoder {
    /// A raw encoder.
    pub fn new() -> (r: Self)
        ensures
            r == RawEncoder,
    {
        RawEncoder
    }
}

impl Default for RawEncoder {
    fn default() -> (r: Self)
        ensures
            r == RawEncoder,
    {
        RawEncoder
    }
}

impl VideoEncoder for RawEncoder {
    /// Raw encoders have no state to tell them apart by.
    open spec fn lineage(&self) -> u64 {
        0
    }

    /// Raw encoders have no state to count with.
    open spec fn tallies(&self) -> bool {
        false
    }

    open spec fn fed(&self) -> u64 {
        0
    }

    open spec fn drained(&self) -> u64 {
        0
    }

    /// Every raw frame is a keyframe.
    open spec fn primed(&self) -> bool {
        true
    }

    /// A consistent frame gives its packet, another frame an error.
    open spec fn answers(
        &self,
        frame: VideoFrame,
        r: Result<Option<EncodedPacket>, MediaError>,
    ) -> bool {
        &&& r is Ok <==> frame.consistent()
        &&& r matches Ok(out) ==> out is Some && raw_encodes_to(frame, out->0)
        &&& r matches Err(e) ==> e == (MediaError::FrameSize {
            expected: frame.format.saturated_len(frame.resolution),
            actual: frame.pixels().len() as usize,
        })
    }

    /// Nothing is ever buffered.
    open spec fn drains(&self, r: Result<Vec<EncodedPacket>, MediaError>) -> bool {
        r matches Ok(packets) && packets@.len() == 0
    }

    fn encode(&mut self, frame: &VideoFrame) -> (r: Result<Option<EncodedPacket>, MediaError>) {
        match frame.validate_len() {
            Ok(()) => {},
            Err(e) => {
                return Err(e);
            },
        }
        let mut buf: Vec<u8> = Vec::new();
        buf.push(RAW_VERSION);
        buf.push(format_to_u8(frame.format));
        push_be(&mut buf, frame.resolution.width);
        push_be(&mut buf, frame.resolution.height);
        push_all(&mut buf, as_slice(&frame.data));
        assert(buf@ =~= raw_bitstream(*frame));
        Ok(
            Some(
                EncodedPacket {
                    data: from_vec(buf),
                    codec: Codec::Raw,
                    frame_id: frame.frame_id,
                    capture_ts_us: frame.capture_ts_us,
                    frame_type: FrameType::Idr,
                },
            ),
        )
    }

    fn request_keyframe(&mut self) {
    }

    fn flush(&mut self) -> (r: Result<Vec<EncodedPacket>, MediaError>) {
        Ok(Vec::new())
    }

    fn caps(&self) -> (r: EncoderCaps)
        ensures
            r.codec == Codec::Raw,
            !r.hardware,
            r.max_resolution == (Resolution { width: u32::MAX, height: u32::MAX }),
            r.accepted_input_formats@.len() == 0,
    {
        EncoderCaps {
            codec: Codec::Raw,
            hardware: false,
            max_resolution: Resolution::new(u32::MAX, u32::MAX),
            accepted_input_formats: Vec::new(),
        }
    }
}

/// Decoder for the bitstreams of [`RawEncoder`].
#[derive(Debug, Clone, Copy)]
pub struct RawDecoder;

impl RawDecoder {
    /// A raw decoder.
    pub fn new() -> (r: Self)
        ensures
            r == RawDecoder,
    {
        RawDecoder
    }
}

impl Default for RawDecoder {
    fn default() -> (r: Self)
        ensures
            r == RawDecoder,
    {
        RawDecoder
    }
}

/// A decode error with the given message.
pub(crate) fn fault(message: &str) -> (e: MediaError)
    ensures
        e matches MediaError::Decode(m) && m@ == message@,
{
    MediaError::Decode(message.to_owned())
}

/// A decode error with a message that ends in a number.
pub(crate) fn fault_with(message: &str, n: u8) -> (e: MediaError)
    ensures
        e matches MediaError::Decode(m) && m@ == message@ + crate::text::decimal(n as nat),
{
    let mut s = message.to_owned();
    push_decimal(&mut s, n as u64);
    MediaError::Decode(s)
}

impl VideoDecoder for RawDecoder {
    fn decode(&mut self, packet: &EncodedPacket) -> (r: Result<Option<VideoFrame>, MediaError>)
        ensures
            r is Ok <==> raw_fault(*packet) is None,
            r matches Ok(out) ==> out is Some && raw_decodes_to(*packet, out->0)
                && out->0.consistent(),
            r matches Err(e) ==> (e matches MediaError::Decode(m) && Some(m@) == raw_fault(
                *packet,
            )),
    {
        if packet.codec != Codec::Raw {
            let mut s = "raw: unexpected codec ".to_owned();
            s.append(packet.codec.name());
            return Err(MediaError::Decode(s));
        }
        let s: &[u8] = as_slice(&packet.data);
        if s.len() < RAW_HEADER_LEN {
            return Err(fault("raw: truncated header"));
        }
        if s[0] != RAW_VERSION {
            return Err(fault_with("raw: unknown version ", s[0]));
        }
        let format = match format_from_u8(s[1]) {
            Some(f) => f,
            None => {
                return Err(fault_with("raw: bad format ", s[1]));
            },
        };
        let resolution = Resolution::new(read_be(s, 2), read_be(s, 6));
        if resolution.width == 0 || resolution.height == 0 {
            return Err(fault("raw: zero-dimension frame"));
        }
        let expected: u128 = format.exact_len(resolution);
        if (s.len() - RAW_HEADER_LEN) as u128 != expected {
            let mut m = "raw: pixel length ".to_owned();
            push_decimal(&mut m, (s.len() - RAW_HEADER_LEN) as u64);
            m.append(" != expected ");
            push_decimal(&mut m, format.frame_len(resolution) as u64);
            return Err(MediaError::Decode(m));
        }
        Ok(
            Some(
                VideoFrame {
                    data: slice_from(&packet.data, RAW_HEADER_LEN),
                    format,
                    resolution,
                    frame_id: packet.frame_id,
                    capture_ts_us: packet.capture_ts_us,
                },
            ),
        )
    }

    fn caps(&self) -> (r: DecoderCaps)
        ensures
            r == (DecoderCaps { codec: Codec::Raw, hardware: false }),
    {
        DecoderCaps { codec: Codec::Raw, hardware: false }
    }
}

/// The codec is lossless: what a consistent frame with at least one pixel encodes to decodes
/// without fault, and to the same frame.
pub proof fn law_raw_roundtrip(frame: VideoFrame, packet: EncodedPacket, decoded: VideoFrame)
    requires
        frame.consistent(),
        frame.resolution.width > 0,
        frame.resolution.height > 0,
        raw_encodes_to(frame, packet),
        raw_decodes_to(packet, decoded),
    ensures
        raw_fault(packet) is None,
        decoded.pixels() == frame.pixels(),
        decoded.format == frame.format,
        decoded.resolution == frame.resolution,
        decoded.frame_id == frame.frame_id,
        decoded.capture_ts_us == frame.capture_ts_us,
{
    let s = raw_bitstream(frame);
    assert(s.subrange(2, 6) =~= be_bytes(frame.resolution.width));
    assert(s.subrange(6, 10) =~= be_bytes(frame.resolution.height));
    lemma_be_roundtrip(frame.resolution.width, s, 2);
    lemma_be_roundtrip(frame.resolution.height, s, 6);
    assert(s.skip(10) =~= frame.pixels());
}

/// What decodes, encodes again to the same bitstream.
pub proof fn law_raw_reencodes(packet: EncodedPacket, frame: VideoFrame)
    requires
        raw_fault(packet) is None,
        raw_decodes_to(packet, frame),
    ensures
        frame.consistent(),
        raw_bitstream(frame) == packet.bitstream(),
{
    let s = packet.bitstream();
    lemma_be_value_bytes(s, 2);
    lemma_be_value_bytes(s, 6);
    assert(s =~= s.take(2) + s.subrange(2, 6) + s.subrange(6, 10) + s.skip(10));
    assert(s.take(2) =~= seq![RAW_VERSION, format_code(frame.format)]);
}

/// A frame without pixels has no decodable encoding: its packet is refused.
pub proof fn law_raw_refuses_empty_frames(frame: VideoFrame, packet: EncodedPacket)
    requires
        frame.resolution.width == 0 || frame.resolution.height == 0,
        raw_encodes_to(frame, packet),
    ensures
        raw_fault(packet) is Some,
{
    let s = raw_bitstream(frame);
    assert(s.subrange(2, 6) =~= be_bytes(frame.resolution.width));
    assert(s.subrange(6, 10) =~= be_bytes(frame.resolution.height));
    lemma_be_roundtrip(frame.resolution.width, s, 2);
    lemma_be_roundtrip(frame.resolution.height, s, 6);
}

/// A raw bitstream is a version, a format and the size in network order, and then the pixels.
pub proof fn law_raw_layout(frame: VideoFrame, packet: EncodedPacket)
    requires
        raw_encodes_to(frame, packet),
    ensures
        ({
            let s = packet.bitstream();
            &&& s.len() == 10 + frame.pixels().len()
            &&& s[0] == 1
            &&& s[1] == 0 <==> frame.format == PixelFormat::Bgra8
            &&& s[1] == 1 <==> frame.format == PixelFormat::I420
            &&& s[1] == 2 <==> frame.format == PixelFormat::Nv12
            &&& s[2] * 0x100_0000 + s[3] * 0x1_0000 + s[4] * 0x100 + s[5] == frame.resolution.width
            &&& s[6] * 0x100_0000 + s[7] * 0x1_0000 + s[8] * 0x100 + s[9] == frame.resolution.height
            &&& s.skip(10) == frame.pixels()
        }),
        packet.codec == Codec::Raw,
        packet.frame_type is Idr,
        packet.frame_id == frame.frame_id,
        packet.capture_ts_us == frame.capture_ts_us,
{
    let s = raw_bitstream(frame);
    assert(s.subrange(2, 6) =~= be_bytes(frame.resolution.width));
    assert(s.subrange(6, 10) =~= be_bytes(frame.resolution.height));
    lemma_be_roundtrip(frame.resolution.width, s, 2);
    lemma_be_roundtrip(frame.resolution.height, s, 6);
    assert(s.skip(10) =~= frame.pixels());
}

/// A packet is refused exactly when it is not a raw one, has no full header, another version, an
/// unknown format, no pixels, or another number of bytes than its format and size call for.
pub proof fn law_raw_refusals(packet: EncodedPacket)
    ensures
        ({
            let s = packet.bitstream();
            let w = s[2] * 0x100_0000 + s[3] * 0x1_0000 + s[4] * 0x100 + s[5];
            let h = s[6] * 0x100_0000 + s[7] * 0x1_0000 + s[8] * 0x100 + s[9];
            raw_fault(packet) is None <==> {
                &&& packet.codec == Codec::Raw
                &&& s.len() >= 10
                &&& s[0] == 1
                &&& s[1] <= 2
                &&& w > 0
                &&& h > 0
                &&& s[1] == 0 ==> s.len() == 10 + w * h * 4
                &&& s[1] != 0 ==> s.len() == 10 + w * h + 2 * (((w + 1) / 2) * ((h + 1) / 2))
            }
        }),
{
    let s = packet.bitstream();
    let w = s[2] * 0x100_0000 + s[3] * 0x1_0000 + s[4] * 0x100 + s[5];
    let h = s[6] * 0x100_0000 + s[7] * 0x1_0000 + s[8] * 0x100 + s[9];
    assert(w * h >= 0) by (nonlinear_arith)
        requires
            w >= 0,
            h >= 0,
    ;
    assert(((w + 1) / 2) * ((h + 1) / 2) >= 0) by (nonlinear_arith)
        requires
            w >= 0,
            h >= 0,
    ;
}

/// A raw encoder takes every frame that is as long as its format and size call for, and no other.
/// It always answers with a keyframe at once, and holds nothing back.
pub proof fn law_raw_encoder_answers(
    encoder: RawEncoder,
    frame: VideoFrame,
    r: Result<Option<EncodedPacket>, MediaError>,
    rest: Result<Vec<EncodedPacket>, MediaError>,
)
    requires
        encoder.answers(frame, r),
        encoder.drains(rest),
    ensures
        r is Ok <==> frame.pixels().len() == frame.format.bytes_for(frame.resolution),
        r matches Ok(out) ==> out is Some && raw_encodes_to(frame, out->0),
        r matches Err(e) ==> e == (MediaError::FrameSize {
            expected: frame.format.saturated_len(frame.resolution),
            actual: frame.pixels().len() as usize,
        }),
        rest matches Ok(packets) && packets@.len() == 0,
        encoder.primed(),
{
}

} // verus!
