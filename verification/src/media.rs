//! Frames, packets, and the seams to capturers, encoders and decoders.
use bytes::Bytes;
use vstd::prelude::*;

use crate::buffer::as_slice;
use crate::text::push_decimal;
use crate::time::Duration;

verus! {

/// Identifies a frame within a session.
#[derive(Debug, Clone, Copy, PartialEq, Eq, Hash, Structural)]
pub struct FrameId(pub u64);

/// A capture timestamp in microseconds.
#[derive(Debug, Clone, Copy, PartialEq, Eq, Hash, Structural)]
pub struct TimestampUs(pub u64);

/// A video codec.
#[derive(Debug, Clone, Copy, PartialEq, Eq, Hash, Structural)]
pub enum Codec {
    /// H.264 / AVC.
    H264,
    /// H.265 / HEVC.
    H265,
    /// AV1.
    Av1,
    /// Pixels behind a small header.
    Raw,
}

impl Codec {
    /// The codec's name.
    pub open spec fn label(self) -> Seq<char> {
        match self {
            Codec::H264 => "H264"@,
            Codec::H265 => "H265"@,
            Codec::Av1 => "Av1"@,
            Codec::Raw => "Raw"@,
        }
    }

    /// The codec's name.
    pub fn name(self) -> (r: &'static str)
        ensures
            r@ == self.label(),
    {
        match self {
            Codec::H264 => "H264",
            Codec::H265 => "H265",
            Codec::Av1 => "Av1",
            Codec::Raw => "Raw",
        }
    }
}

/// How a frame was coded.
#[derive(Debug, Clone, Copy, PartialEq, Eq, Hash, Structural)]
pub enum FrameType {
    /// A keyframe: decodable by itself.
    Idr,
    /// Part of a rolling refresh.
    IntraRefresh,
    /// Predicted from earlier frames.
    Predicted,
}

/// How the pixels of a frame are laid out.
#[derive(Debug, Clone, Copy, PartialEq, Eq, Hash, Structural)]
pub enum PixelFormat {
    /// Packed blue, green, red, alpha; one byte each.
    Bgra8,
    /// Planar 4:2:0 with two chroma planes.
    I420,
    /// Planar 4:2:0 with interleaved chroma.
    Nv12,
}

/// A frame size in pixels.
#[derive(Debug, Clone, Copy, PartialEq, Eq, Hash, Structural)]
pub struct Resolution {
    /// Pixels per row.
    pub width: u32,
    /// Rows.
    pub height: u32,
}

impl Resolution {
    /// A frame size.
    pub fn new(width: u32, height: u32) -> (r: Self)
        ensures
            r == (Resolution { width, height }),
    {
        Resolution { width, height }
    }
}

impl PixelFormat {
    /// The format's name.
    pub open spec fn label(self) -> Seq<char> {
        match self {
            PixelFormat::Bgra8 => "Bgra8"@,
            PixelFormat::I420 => "I420"@,
            PixelFormat::Nv12 => "Nv12"@,
        }
    }

    /// The format's name.
    pub fn name(self) -> (r: &'static str)
        ensures
            r@ == self.label(),
    {
        match self {
            PixelFormat::Bgra8 => "Bgra8",
            PixelFormat::I420 => "I420",
            PixelFormat::Nv12 => "Nv12",
        }
    }

    /// Bytes that a frame of size `r` takes. The 4:2:0 formats carry two chroma samples for each
    /// block of two by two pixels, and the blocks at an odd edge count in full.
    pub open spec fn bytes_for(self, r: Resolution) -> nat {
        let luma = (r.width * r.height) as nat;
        match self {
            PixelFormat::Bgra8 => luma * 4,
            PixelFormat::I420 | PixelFormat::Nv12 => luma + 2 * ((((r.width + 1) / 2) * ((r.height
                + 1) / 2)) as nat),
        }
    }

    /// Bytes that a frame of size `r` takes, exactly.
    pub(crate) fn exact_len(self, r: Resolution) -> (n: u128)
        ensures
            n == self.bytes_for(r),
    {
        let w: u128 = r.width as u128;
        let h: u128 = r.height as u128;
        assert(w * h <= 0xFFFF_FFFF * 0xFFFF_FFFF && ((w + 1) / 2) * ((h + 1) / 2) <= 0x8000_0000
            * 0x8000_0000) by (nonlinear_arith)
            requires
                w <= 0xFFFF_FFFF,
                h <= 0xFFFF_FFFF,
        ;
        match self {
            PixelFormat::Bgra8 => w * h * 4,
            PixelFormat::I420 | PixelFormat::Nv12 => w * h + 2 * (((w + 1) / 2) * ((h + 1) / 2)),
        }
    }

    /// Bytes that a frame of size `r` takes, or the largest `usize` where that is less.
    pub open spec fn saturated_len(self, r: Resolution) -> usize {
        if self.bytes_for(r) > usize::MAX {
            usize::MAX
        } else {
            self.bytes_for(r) as usize
        }
    }

    /// Bytes that a frame of size `r` takes, saturating.
    pub fn frame_len(self, r: Resolution) -> (n: usize)
        ensures
            n == self.saturated_len(r),
    {
        let n: u128 = self.exact_len(r);
        if n > usize::MAX as u128 {
            usize::MAX
        } else {
            n as usize
        }
    }
}

/// A capture, encode or decode step failed.
#[derive(Debug, Clone, PartialEq, Eq)]
pub enum MediaError {
    /// The buffer does not hold as many bytes as format and size call for.
    FrameSize {
        /// Bytes called for.
        expected: usize,
        /// Bytes present.
        actual: usize,
    },
    /// The format or configuration is not supported.
    Unsupported(String),
    /// Capture failed.
    Capture(String),
    /// Encoding failed.
    Encode(String),
    /// Decoding failed.
    Decode(String),
}

impl MediaError {
    /// What the error says.
    pub open spec fn text(self) -> Seq<char> {
        match self {
            MediaError::FrameSize { expected, actual } => "frame size mismatch: expected "@
                + crate::text::decimal(expected as nat) + " bytes, got "@ + crate::text::decimal(
                actual as nat,
            ),
            MediaError::Unsupported(m) => "unsupported: "@ + m@,
            MediaError::Capture(m) => "capture: "@ + m@,
            MediaError::Encode(m) => "encode: "@ + m@,
            MediaError::Decode(m) => "decode: "@ + m@,
        }
    }

    /// What the error says.
    pub fn to_text(&self) -> (r: String)
        ensures
            r@ == self.text(),
    {
        match self {
            MediaError::FrameSize { expected, actual } => {
                let mut s = "frame size mismatch: expected ".to_owned();
                push_decimal(&mut s, *expected as u64);
                s.append(" bytes, got ");
                push_decimal(&mut s, *actual as u64);
                s
            },
            MediaError::Unsupported(m) => with_prefix("unsupported: ", m),
            MediaError::Capture(m) => with_prefix("capture: ", m),
            MediaError::Encode(m) => with_prefix("encode: ", m),
            MediaError::Decode(m) => with_prefix("decode: ", m),
        }
    }
}

/// `prefix` and then `m`.
fn with_prefix(prefix: &str, m: &String) -> (r: String)
    ensures
        r@ == prefix@ + m@,
{
    let mut s = prefix.to_owned();
    s.append(m.as_str());
    s
}

/// One captured frame.
#[derive(Debug, PartialEq, Eq)]
pub struct VideoFrame {
    /// Pixels.
    pub data: Bytes,
    /// Layout of the pixels.
    pub format: PixelFormat,
    /// Size.
    pub resolution: Resolution,
    /// Identity.
    pub frame_id: FrameId,
    /// When it was captured.
    pub capture_ts_us: TimestampUs,
}

impl VideoFrame {
    /// The bytes of the frame.
    pub open spec fn pixels(self) -> Seq<u8> {
        crate::buffer::content(self.data)
    }

    /// The buffer holds exactly the bytes that format and size call for.
    pub open spec fn consistent(self) -> bool {
        self.pixels().len() == self.format.bytes_for(self.resolution)
    }

    /// Check that the buffer holds the bytes that format and size call for.
    pub fn validate_len(&self) -> (r: Result<(), MediaError>)
        ensures
            r is Ok <==> self.consistent(),
            r matches Err(e) ==> e == (MediaError::FrameSize {
                expected: self.format.saturated_len(self.resolution),
                actual: self.pixels().len() as usize,
            }),
    {
        let expected: u128 = self.format.exact_len(self.resolution);
        let actual: usize = as_slice(&self.data).len();
        if actual as u128 == expected {
            Ok(())
        } else {
            Err(MediaError::FrameSize { expected: self.format.frame_len(self.resolution), actual })
        }
    }
}

impl Clone for VideoFrame {
    fn clone(&self) -> (r: Self)
        ensures
            r.pixels() == self.pixels(),
            r.format == self.format,
            r.resolution == self.resolution,
            r.frame_id == self.frame_id,
            r.capture_ts_us == self.capture_ts_us,
    {
        VideoFrame {
            data: self.data.clone(),
            format: self.format,
            resolution: self.resolution,
            frame_id: self.frame_id,
            capture_ts_us: self.capture_ts_us,
        }
    }
}

/// One encoded frame.
#[derive(Debug, PartialEq, Eq)]
pub struct EncodedPacket {
    /// Bitstream.
    pub data: Bytes,
    /// Codec of the bitstream.
    pub codec: Codec,
    /// Identity of the frame.
    pub frame_id: FrameId,
    /// When the frame was captured.
    pub capture_ts_us: TimestampUs,
    /// How the frame was coded.
    pub frame_type: FrameType,
}

impl EncodedPacket {
    /// The bytes of the bitstream.
    pub open spec fn bitstream(self) -> Seq<u8> {
        crate::buffer::content(self.data)
    }
}

impl Clone for EncodedPacket {
    fn clone(&self) -> (r: Self)
        ensures
            r.bitstream() == self.bitstream(),
            r.codec == self.codec,
            r.frame_id == self.frame_id,
            r.capture_ts_us == self.capture_ts_us,
            r.frame_type == self.frame_type,
    {
        EncodedPacket {
            data: self.data.clone(),
            codec: self.codec,
            frame_id: self.frame_id,
            capture_ts_us: self.capture_ts_us,
            frame_type: self.frame_type,
        }
    }
}

/// What an encoder is asked to produce.
#[derive(Debug, Clone, Copy, PartialEq, Eq, Structural)]
pub struct EncoderConfig {
    /// Codec.
    pub codec: Codec,
    /// Frame size.
    pub resolution: Resolution,
    /// Frames per second.
    pub target_fps: u32,
    /// Bitrate, where one is asked for.
    pub target_bitrate_kbps: Option<u32>,
}

/// What an encoder offers.
#[derive(Debug, Clone, PartialEq, Eq)]
pub struct EncoderCaps {
    /// Codec.
    pub codec: Codec,
    /// Whether it runs in hardware.
    pub hardware: bool,
    /// Largest frame.
    pub max_resolution: Resolution,
    /// Formats it takes; empty when it takes any.
    pub accepted_input_formats: Vec<PixelFormat>,
}

/// What a decoder offers.
#[derive(Debug, Clone, Copy, PartialEq, Eq, Structural)]
pub struct DecoderCaps {
    /// Codec.
    pub codec: Codec,
    /// Whether it runs in hardware.
    pub hardware: bool,
}

/// Turns frames into packets.
pub trait VideoEncoder: Send {
    /// Which encoder this is. It stays the same whatever the encoder is asked to do.
    spec fn lineage(&self) -> u64;

    /// The encoder keeps count of what it is asked to do. One that has no state does not.
    spec fn tallies(&self) -> bool;

    /// How many frames the encoder was given, if it keeps count.
    spec fn fed(&self) -> u64;

    /// How often the encoder was drained, if it keeps count.
    spec fn drained(&self) -> u64;

    /// The next packet will be a keyframe.
    spec fn primed(&self) -> bool;

    /// `r` is an answer that this encoder gives to the frame.
    spec fn answers(
        &self,
        frame: VideoFrame,
        r: Result<Option<EncodedPacket>, MediaError>,
    ) -> bool;

    /// `r` is an answer that this encoder gives when it is drained.
    spec fn drains(&self, r: Result<Vec<EncodedPacket>, MediaError>) -> bool;

    /// Encode one frame; `None` when the encoder buffers or skips it.
    fn encode(&mut self, frame: &VideoFrame) -> (r: Result<Option<EncodedPacket>, MediaError>)
        ensures
            old(self).answers(*frame, r),
            old(self).primed() ==> (r matches Ok(Some(packet)) ==> packet.frame_type is Idr),
            old(self).primed() ==> (r matches Ok(None) ==> final(self).primed()),
            final(self).lineage() == old(self).lineage(),
            final(self).tallies() == old(self).tallies(),
            old(self).tallies() ==> final(self).fed() == one_more(old(self).fed()),
            final(self).drained() == old(self).drained(),
    ;

    /// Make the next packet a keyframe.
    fn request_keyframe(&mut self)
        ensures
            final(self).primed(),
            final(self).lineage() == old(self).lineage(),
            final(self).tallies() == old(self).tallies(),
            final(self).fed() == old(self).fed(),
            final(self).drained() == old(self).drained(),
    ;

    /// Give out what is still buffered.
    fn flush(&mut self) -> (r: Result<Vec<EncodedPacket>, MediaError>)
        ensures
            old(self).drains(r),
            final(self).lineage() == old(self).lineage(),
            final(self).tallies() == old(self).tallies(),
            final(self).fed() == old(self).fed(),
            old(self).tallies() ==> final(self).drained() == one_more(old(self).drained()),
    ;

    /// What the encoder offers.
    fn caps(&self) -> EncoderCaps;
}

/// Turns packets back into frames.
pub trait VideoDecoder: Send {
    /// Decode one packet; `None` when more is needed.
    fn decode(&mut self, packet: &EncodedPacket) -> Result<Option<VideoFrame>, MediaError>;

    /// What the decoder offers.
    fn caps(&self) -> DecoderCaps;
}

/// An audio codec.
#[derive(Debug, Clone, Copy, PartialEq, Eq, Hash, Structural)]
pub enum AudioCodec {
    /// Uncompressed samples behind a small header.
    RawPcm,
}

/// A run of interleaved little-endian 16-bit samples.
#[derive(Debug, PartialEq, Eq)]
pub struct AudioFrame {
    /// Samples, two bytes each.
    pub samples: Bytes,
    /// Samples per second and channel.
    pub sample_rate: u32,
    /// Channels.
    pub channels: u8,
    /// When it was captured.
    pub capture_ts_us: TimestampUs,
    /// Position in the stream.
    pub seq: u64,
}

impl AudioFrame {
    /// The bytes of the samples.
    pub open spec fn pcm(self) -> Seq<u8> {
        crate::buffer::content(self.samples)
    }

    /// The buffer holds whole samples, and as many for each channel.
    pub open spec fn whole(self) -> bool {
        self.pcm().len() % 2 == 0 && (self.pcm().len() / 2) % (self.channels as nat) == 0
    }

    /// The frame has a format and its buffer fits it.
    pub open spec fn consistent(self) -> bool {
        self.channels != 0 && self.sample_rate != 0 && self.whole()
    }

    /// `e` says what is wrong with a frame that is not consistent.
    pub open spec fn refused_with(self, e: MediaError) -> bool {
        if self.channels == 0 {
            e matches MediaError::Unsupported(m) && m@ == "audio frame with zero channels"@
        } else if self.sample_rate == 0 {
            e matches MediaError::Unsupported(m) && m@ == "audio frame with zero sample rate"@
        } else {
            let group = 2 * self.channels as nat;
            e == (MediaError::FrameSize {
                expected: (self.pcm().len() / group * group) as usize,
                actual: self.pcm().len() as usize,
            })
        }
    }

    /// Check that the frame has a format and that its buffer fits it.
    pub fn validate_len(&self) -> (r: Result<(), MediaError>)
        ensures
            r is Ok <==> self.consistent(),
            r matches Err(e) ==> self.refused_with(e),
    {
        if self.channels == 0 {
            return Err(MediaError::Unsupported("audio frame with zero channels".to_owned()));
        }
        if self.sample_rate == 0 {
            return Err(MediaError::Unsupported("audio frame with zero sample rate".to_owned()));
        }
        let actual: usize = as_slice(&self.samples).len();
        let channels: usize = self.channels as usize;
        if actual % 2 == 0 && (actual / 2) % channels == 0 {
            Ok(())
        } else {
            let group: usize = 2 * channels;
            proof {
                vstd::arithmetic::div_mod::lemma_fundamental_div_mod(actual as int, group as int);
                vstd::arithmetic::mul::lemma_mul_is_commutative(
                    group as int,
                    actual as int / group as int,
                );
            }
            let expected: usize = actual / group * group;
            Err(MediaError::FrameSize { expected, actual })
        }
    }
}

impl Clone for AudioFrame {
    fn clone(&self) -> (r: Self)
        ensures
            r.pcm() == self.pcm(),
            r.sample_rate == self.sample_rate,
            r.channels == self.channels,
            r.capture_ts_us == self.capture_ts_us,
            r.seq == self.seq,
    {
        AudioFrame {
            samples: self.samples.clone(),
            sample_rate: self.sample_rate,
            channels: self.channels,
            capture_ts_us: self.capture_ts_us,
            seq: self.seq,
        }
    }
}

/// One encoded audio frame.
#[derive(Debug, PartialEq, Eq)]
pub struct AudioEncodedPacket {
    /// Bitstream.
    pub data: Bytes,
    /// When the frame was captured.
    pub capture_ts_us: TimestampUs,
    /// Position in the stream.
    pub seq: u64,
    /// Codec of the bitstream.
    pub codec: AudioCodec,
}

impl AudioEncodedPacket {
    /// The bytes of the bitstream.
    pub open spec fn bitstream(self) -> Seq<u8> {
        crate::buffer::content(self.data)
    }
}

impl Clone for AudioEncodedPacket {
    fn clone(&self) -> (r: Self)
        ensures
            r.bitstream() == self.bitstream(),
            r.capture_ts_us == self.capture_ts_us,
            r.seq == self.seq,
            r.codec == self.codec,
    {
        AudioEncodedPacket {
            data: self.data.clone(),
            capture_ts_us: self.capture_ts_us,
            seq: self.seq,
            codec: self.codec,
        }
    }
}

/// What an audio encoder offers.
#[derive(Debug, Clone, Copy, PartialEq, Eq, Structural)]
pub struct AudioEncoderCaps {
    /// Codec.
    pub codec: AudioCodec,
    /// Samples per second and channel.
    pub sample_rate_hz: u32,
    /// Channels.
    pub channels: u8,
}

/// What an audio decoder offers.
#[derive(Debug, Clone, Copy, PartialEq, Eq, Structural)]
pub struct AudioDecoderCaps {
    /// Codec.
    pub codec: AudioCodec,
}

/// Turns audio frames into packets.
pub trait AudioEncoder: Send {
    /// Encode one frame; `None` when the encoder buffers it.
    fn encode(&mut self, frame: &AudioFrame) -> Result<Option<AudioEncodedPacket>, MediaError>;

    /// Give out what is still buffered.
    fn flush(&mut self) -> Result<Vec<AudioEncodedPacket>, MediaError>;

    /// What the encoder offers.
    fn caps(&self) -> AudioEncoderCaps;
}

/// Turns audio packets back into frames.
pub trait AudioDecoder: Send {
    /// Decode one packet; `None` when more is needed.
    fn decode(&mut self, packet: &AudioEncodedPacket) -> Result<Option<AudioFrame>, MediaError>;

    /// Give out what is still buffered.
    fn flush(&mut self) -> Result<Vec<AudioFrame>, MediaError>;

    /// What the decoder offers.
    fn caps(&self) -> AudioDecoderCaps;
}

/// The count after `n`. Past the largest it starts over.
pub open spec fn one_more(n: u64) -> u64 {
    if n == u64::MAX {
        0
    } else {
        (n + 1) as u64
    }
}

/// Captures the screen.
pub trait ScreenCapturer: Send {
    /// The size of the frames to come.
    spec fn size(&self) -> Resolution;

    /// The layout of the frames to come.
    spec fn layout(&self) -> PixelFormat;

    /// `r` is an answer that this capturer gives when it is asked for a frame, and `after` is the
    /// size of the frames to come from then on.
    spec fn offers(
        &self,
        timeout: Duration,
        r: Result<Option<VideoFrame>, MediaError>,
        after: Resolution,
    ) -> bool;

    /// How often the capturer was asked for a frame.
    spec fn asked(&self) -> u64;

    /// The next frame; `None` when there is none within `timeout`.
    fn next_frame(&mut self, timeout: Duration) -> (r: Result<Option<VideoFrame>, MediaError>)
        ensures
            old(self).offers(timeout, r, final(self).size()),
            final(self).asked() == one_more(old(self).asked()),
    ;

    /// Size of the frames.
    fn resolution(&self) -> (r: Resolution)
        ensures
            r == self.size(),
    ;

    /// Layout of the frames.
    fn pixel_format(&self) -> (r: PixelFormat)
        ensures
            r == self.layout(),
    ;
}

/// A packed frame takes four bytes to the pixel. A 4:2:0 frame takes one byte to the pixel and two
/// for each block of two by two, so three bytes to two pixels where the size is even; an odd column
/// or row adds as many blocks as one more would.
pub proof fn law_bytes_of_a_frame(r: Resolution)
    ensures
        PixelFormat::Bgra8.bytes_for(r) == r.width * r.height * 4,
        PixelFormat::I420.bytes_for(r) == PixelFormat::Nv12.bytes_for(r),
        r.width % 2 == 0 && r.height % 2 == 0 ==> 2 * PixelFormat::I420.bytes_for(r) == 3 * (r.width
            * r.height),
        r.width % 2 == 1 && r.width < u32::MAX ==> PixelFormat::I420.bytes_for(r) + r.height
            == PixelFormat::I420.bytes_for(
            Resolution { width: (r.width + 1) as u32, height: r.height },
        ),
        r.height % 2 == 1 && r.height < u32::MAX ==> PixelFormat::I420.bytes_for(r) + r.width
            == PixelFormat::I420.bytes_for(
            Resolution { width: r.width, height: (r.height + 1) as u32 },
        ),
{
    let (w, h) = (r.width as int, r.height as int);
    assert(w * h >= 0) by (nonlinear_arith)
        requires
            w >= 0,
            h >= 0,
    ;
    assert((w + 1) * h == w * h + h) by (nonlinear_arith);
    assert(w * (h + 1) == w * h + w) by (nonlinear_arith);
    let (a, b) = ((w + 1) / 2, (h + 1) / 2);
    assert(a * b >= 0) by (nonlinear_arith)
        requires
            a >= 0,
            b >= 0,
    ;
    if w % 2 == 0 && h % 2 == 0 {
        assert((2 * a) * (2 * b) == 4 * (a * b)) by (nonlinear_arith);
        assert(w == 2 * a && h == 2 * b);
    }
}

/// A frame is consistent exactly when it is as long as its format and size call for; a length beyond
/// what can be counted is never met.
pub proof fn law_consistent_frames(frame: VideoFrame)
    ensures
        frame.consistent() <==> frame.pixels().len() == frame.format.bytes_for(frame.resolution),
        frame.format.bytes_for(frame.resolution) <= usize::MAX ==> frame.format.saturated_len(
            frame.resolution,
        ) == frame.format.bytes_for(frame.resolution),
        frame.format.bytes_for(frame.resolution) > usize::MAX ==> frame.format.saturated_len(
            frame.resolution,
        ) == usize::MAX,
{
}

/// An audio frame is consistent exactly when it has channels, a sample rate and a whole number of
/// two-byte samples for each channel.
pub proof fn law_consistent_audio(frame: AudioFrame)
    ensures
        frame.consistent() <==> frame.channels > 0 && frame.sample_rate > 0 && frame.pcm().len()
            % (2 * frame.channels as nat) == 0,
{
    let n = frame.pcm().len() as int;
    let c = frame.channels as int;
    if c > 0 {
        vstd::arithmetic::div_mod::lemma_fundamental_div_mod(n, 2 * c);
        vstd::arithmetic::div_mod::lemma_mod_bound(n, 2 * c);
        let (q, r) = (n / (2 * c), n % (2 * c));
        assert((2 * c) * q == 2 * (c * q)) by (nonlinear_arith);
        assert(c * q == q * c) by (nonlinear_arith);
        if n % 2 == 0 && (n / 2) % c == 0 {
            vstd::arithmetic::div_mod::lemma_fundamental_div_mod(n / 2, c);
            let k = (n / 2) / c;
            assert(n == k * (2 * c)) by (nonlinear_arith)
                requires
                    n == 2 * (c * k),
            ;
            vstd::arithmetic::div_mod::lemma_fundamental_div_mod_converse(n, 2 * c, k, 0);
        }
        if r == 0 {
            assert(n / 2 == q * c + 0);
            vstd::arithmetic::div_mod::lemma_fundamental_div_mod_converse(n / 2, c, q, 0);
        }
    }
}

/// A count goes up by one, and after the largest starts over at zero.
pub proof fn law_counts_go_round(n: u64)
    ensures
        n < 0xFFFF_FFFF_FFFF_FFFF ==> one_more(n) == n + 1,
        n == 0xFFFF_FFFF_FFFF_FFFF ==> one_more(n) == 0,
{
}

} // verus!
