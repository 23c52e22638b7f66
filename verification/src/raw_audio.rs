//! A lossless raw audio codec: the samples of a frame behind a self-describing header.
//!
//! The header is `magic 0xA0 (1) | version (1) | sample rate (4, big-endian) | channels (1) |
//! reserved (1)`. Decoding treats the bitstream as untrusted.
use vstd::prelude::*;

use crate::buffer::{as_slice, from_vec, slice_from};
use crate::media::{
    AudioCodec, AudioDecoder, AudioDecoderCaps, AudioEncodedPacket, AudioEncoder, AudioEncoderCaps,
    AudioFrame, MediaError,
};
use crate::raw::{fault, fault_with, push_all, push_be, read_be};
use crate::text::{push_decimal, push_upper_hex};

verus! {

/// Length of the header.
pub const RAW_AUDIO_HEADER_LEN: usize = 8;

/// First byte of every bitstream.
pub const RAW_AUDIO_MAGIC: u8 = 0xA0;

/// Version of the bitstream.
pub const RAW_AUDIO_VERSION: u8 = 1;

/// The bitstream of a frame.
pub open spec fn raw_audio_bitstream(frame: AudioFrame) -> Seq<u8> {
    seq![RAW_AUDIO_MAGIC, RAW_AUDIO_VERSION] + crate::raw::be_bytes(frame.sample_rate) + seq![
        frame.channels,
        0u8,
    ] + frame.pcm()
}

/// `packet` is what `frame` encodes to.
pub open spec fn raw_audio_encodes_to(frame: AudioFrame, packet: AudioEncodedPacket) -> bool {
    &&& packet.bitstream() == raw_audio_bitstream(frame)
    &&& packet.capture_ts_us == frame.capture_ts_us
    &&& packet.seq == frame.seq
    &&& packet.codec == AudioCodec::RawPcm
}

/// The sample rate that the header of a packet declares.
pub open spec fn raw_audio_rate(packet: AudioEncodedPacket) -> u32 {
    crate::raw::be_value(packet.bitstream(), 2)
}

/// Samples behind the header of a packet.
pub open spec fn raw_audio_samples(packet: AudioEncodedPacket) -> nat {
    ((packet.bitstream().len() - RAW_AUDIO_HEADER_LEN) / 2) as nat
}

/// Why a packet cannot be decoded, as a message; `None` when it can. The checks come in this
/// order: header, magic, version, sample rate, channels, whole samples, whole sample groups.
pub open spec fn raw_audio_fault(packet: AudioEncodedPacket) -> Option<Seq<char>> {
    let s = packet.bitstream();
    if s.len() < RAW_AUDIO_HEADER_LEN {
        Some("raw_audio: truncated header"@)
    } else if s[0] != RAW_AUDIO_MAGIC {
        Some("raw_audio: bad magic 0x"@ + crate::text::upper_hex(s[0]))
    } else if s[1] != RAW_AUDIO_VERSION {
        Some("raw_audio: unknown version "@ + crate::text::decimal(s[1] as nat))
    } else if raw_audio_rate(packet) == 0 {
        Some("raw_audio: zero sample_rate"@)
    } else if s[6] == 0 {
        Some("raw_audio: zero channels"@)
    } else if (s.len() - RAW_AUDIO_HEADER_LEN) % 2 != 0 {
        Some("raw_audio: odd payload length — not a whole number of i16 samples"@)
    } else if raw_audio_samples(packet) % (s[6] as nat) != 0 {
        Some(
            "raw_audio: sample count "@ + crate::text::decimal(raw_audio_samples(packet))
                + " not divisible by channels "@ + crate::text::decimal(s[6] as nat),
        )
    } else {
        None
    }
}

/// `frame` is what `packet` decodes to.
pub open spec fn raw_audio_decodes_to(packet: AudioEncodedPacket, frame: AudioFrame) -> bool {
    &&& frame.pcm() == packet.bitstream().skip(RAW_AUDIO_HEADER_LEN as int)
    &&& frame.sample_rate == raw_audio_rate(packet)
    &&& frame.channels == packet.bitstream()[6]
    &&& frame.capture_ts_us == packet.capture_ts_us
    &&& frame.seq == packet.seq
}

/// Lossless raw audio encoder for one format.
#[derive(Debug, Clone, Copy)]
pub struct RawAudioEncoder {
    sample_rate: u32,
    channels: u8,
}

impl RawAudioEncoder {
    /// The sample rate that the encoder takes.
    pub closed spec fn rate(self) -> u32 {
        self.sample_rate
    }

    /// The channels that the encoder takes.
    pub closed spec fn channel_count(self) -> u8 {
        self.channels
    }

    /// An encoder for frames of the given format.
    pub fn new(sample_rate: u32, channels: u8) -> (r: Self)
        ensures
            r.rate() == sample_rate,
            r.channel_count() == channels,
    {
        RawAudioEncoder { sample_rate, channels }
    }

    /// The frame has the format that the encoder takes.
    pub open spec fn accepts(self, frame: AudioFrame) -> bool {
        frame.sample_rate == self.rate() && frame.channels == self.channel_count()
    }

    /// What is said of a frame in another format.
    pub open spec fn mismatch(self, frame: AudioFrame) -> Seq<char> {
        "raw_audio: frame format "@ + crate::text::decimal(frame.sample_rate as nat) + "Hz/"@
            + crate::text::decimal(frame.channels as nat) + "ch does not match encoder caps "@
            + crate::text::decimal(self.rate() as nat) + "Hz/"@ + crate::text::decimal(
            self.channel_count() as nat,
        ) + "ch"@
    }
}

impl AudioEncoder for RawAudioEncoder {
    fn encode(&mut self, frame: &AudioFrame) -> (r: Result<Option<AudioEncodedPacket>, MediaError>)
        ensures
            *final(self) == *old(self),
            r is Ok <==> old(self).accepts(*frame) && frame.consistent(),
            r matches Ok(out) ==> out is Some && raw_audio_encodes_to(*frame, out->0),
            r matches Err(e) ==> if !old(self).accepts(*frame) {
                e matches MediaError::Encode(m) && m@ == old(self).mismatch(*frame)
            } else {
                frame.refused_with(e)
            },
    {
        if frame.sample_rate != self.sample_rate || frame.channels != self.channels {
            let mut m = "raw_audio: frame format ".to_owned();
            push_decimal(&mut m, frame.sample_rate as u64);
            m.append("Hz/");
            push_decimal(&mut m, frame.channels as u64);
            m.append("ch does not match encoder caps ");
            push_decimal(&mut m, self.sample_rate as u64);
            m.append("Hz/");
            push_decimal(&mut m, self.channels as u64);
            m.append("ch");
            return Err(MediaError::Encode(m));
        }
        match frame.validate_len() {
            Ok(()) => {},
            Err(e) => {
                return Err(e);
            },
        }
        let mut buf: Vec<u8> = Vec::new();
        buf.push(RAW_AUDIO_MAGIC);
        buf.push(RAW_AUDIO_VERSION);
        push_be(&mut buf, frame.sample_rate);
        buf.push(frame.channels);
        buf.push(0);
        push_all(&mut buf, as_slice(&frame.samples));
        assert(buf@ =~= raw_audio_bitstream(*frame));
        Ok(
            Some(
                AudioEncodedPacket {
                    data: from_vec(buf),
                    capture_ts_us: frame.capture_ts_us,
                    seq: frame.seq,
                    codec: AudioCodec::RawPcm,
                },
            ),
        )
    }

    fn flush(&mut self) -> (r: Result<Vec<AudioEncodedPacket>, MediaError>)
        ensures
            *final(self) == *old(self),
            r matches Ok(v) && v@.len() == 0,
    {
        Ok(Vec::new())
    }

    fn caps(&self) -> (r: AudioEncoderCaps)
        ensures
            r == (AudioEncoderCaps {
                codec: AudioCodec::RawPcm,
                sample_rate_hz: self.rate(),
                channels: self.channel_count(),
            }),
    {
        AudioEncoderCaps {
            codec: AudioCodec::RawPcm,
            sample_rate_hz: self.sample_rate,
            channels: self.channels,
        }
    }
}

/// Decoder for the bitstreams of [`RawAudioEncoder`]. `RawPcm` is the only audio codec there is,
/// so the codec of a packet needs no check.
#[derive(Debug, Clone, Copy)]
pub struct RawAudioDecoder;

impl RawAudioDecoder {
    /// A raw audio decoder.
    pub fn new() -> (r: Self)
        ensures
            r == RawAudioDecoder,
    {
        RawAudioDecoder
    }
}

impl Default for RawAudioDecoder {
    fn default() -> (r: Self)
        ensures
            r == RawAudioDecoder,
    {
        RawAudioDecoder
    }
}

impl AudioDecoder for RawAudioDecoder {
    fn decode(&mut self, packet: &AudioEncodedPacket) -> (r: Result<
        Option<AudioFrame>,
        MediaError,
    >)
        ensures
            r is Ok <==> raw_audio_fault(*packet) is None,
            r matches Ok(out) ==> out is Some && raw_audio_decodes_to(*packet, out->0)
                && out->0.consistent(),
            r matches Err(e) ==> (e matches MediaError::Decode(m) && Some(m@) == raw_audio_fault(
                *packet,
            )),
    {
        let s: &[u8] = as_slice(&packet.data);
        if s.len() < RAW_AUDIO_HEADER_LEN {
            return Err(fault("raw_audio: truncated header"));
        }
        if s[0] != RAW_AUDIO_MAGIC {
            let mut m = "raw_audio: bad magic 0x".to_owned();
            push_upper_hex(&mut m, s[0]);
            return Err(MediaError::Decode(m));
        }
        if s[1] != RAW_AUDIO_VERSION {
            return Err(fault_with("raw_audio: unknown version ", s[1]));
        }
        let sample_rate: u32 = read_be(s, 2);
        if sample_rate == 0 {
            return Err(fault("raw_audio: zero sample_rate"));
        }
        let channels: u8 = s[6];
        if channels == 0 {
            return Err(fault("raw_audio: zero channels"));
        }
        let payload: usize = s.len() - RAW_AUDIO_HEADER_LEN;
        if payload % 2 != 0 {
            return Err(
                fault("raw_audio: odd payload length — not a whole number of i16 samples"),
            );
        }
        let total: usize = payload / 2;
        if total % (channels as usize) != 0 {
            let mut m = "raw_audio: sample count ".to_owned();
            push_decimal(&mut m, total as u64);
            m.append(" not divisible by channels ");
            push_decimal(&mut m, channels as u64);
            return Err(MediaError::Decode(m));
        }
        Ok(
            Some(
                AudioFrame {
                    samples: slice_from(&packet.data, RAW_AUDIO_HEADER_LEN),
                    sample_rate,
                    channels,
                    capture_ts_us: packet.capture_ts_us,
                    seq: packet.seq,
                },
            ),
        )
    }

    fn flush(&mut self) -> (r: Result<Vec<AudioFrame>, MediaError>)
        ensures
            r matches Ok(v) && v@.len() == 0,
    {
        Ok(Vec::new())
    }

    fn caps(&self) -> (r: AudioDecoderCaps)
        ensures
            r == (AudioDecoderCaps { codec: AudioCodec::RawPcm }),
    {
        AudioDecoderCaps { codec: AudioCodec::RawPcm }
    }
}

/// The codec is lossless: what a consistent frame encodes to decodes without fault, and to the
/// same frame.
pub proof fn law_raw_audio_roundtrip(
    frame: AudioFrame,
    packet: AudioEncodedPacket,
    decoded: AudioFrame,
)
    requires
        frame.consistent(),
        raw_audio_encodes_to(frame, packet),
        raw_audio_decodes_to(packet, decoded),
    ensures
        raw_audio_fault(packet) is None,
        decoded.pcm() == frame.pcm(),
        decoded.sample_rate == frame.sample_rate,
        decoded.channels == frame.channels,
        decoded.capture_ts_us == frame.capture_ts_us,
        decoded.seq == frame.seq,
{
    let s = raw_audio_bitstream(frame);
    assert(s.subrange(2, 6) =~= crate::raw::be_bytes(frame.sample_rate));
    crate::raw::lemma_be_roundtrip(frame.sample_rate, s, 2);
    assert(s.skip(8) =~= frame.pcm());
}

/// What decodes, encodes again to the same bitstream, up to the reserved byte.
pub proof fn law_raw_audio_reencodes(packet: AudioEncodedPacket, frame: AudioFrame)
    requires
        raw_audio_fault(packet) is None,
        raw_audio_decodes_to(packet, frame),
    ensures
        frame.consistent(),
        raw_audio_bitstream(frame) == packet.bitstream().update(7, 0),
{
    let s = packet.bitstream();
    crate::raw::lemma_be_value_bytes(s, 2);
    let t = raw_audio_bitstream(frame);
    assert(s.subrange(2, 6) == crate::raw::be_bytes(frame.sample_rate));
    assert forall|i: int| 0 <= i < t.len() implies t[i] == s.update(7, 0)[i] by {
        if 2 <= i < 6 {
            assert(t[i] == crate::raw::be_bytes(frame.sample_rate)[i - 2]);
            assert(s.subrange(2, 6)[i - 2] == s[i]);
        }
    }
    assert(t =~= s.update(7, 0));
}

/// A raw audio bitstream is a magic byte, a version, the sample rate in network order, the channels
/// and a zero, and then the samples.
pub proof fn law_raw_audio_layout(frame: AudioFrame, packet: AudioEncodedPacket)
    requires
        raw_audio_encodes_to(frame, packet),
    ensures
        ({
            let s = packet.bitstream();
            &&& s.len() == 8 + frame.pcm().len()
            &&& s[0] == 0xA0 && s[1] == 1
            &&& s[2] * 0x100_0000 + s[3] * 0x1_0000 + s[4] * 0x100 + s[5] == frame.sample_rate
            &&& s[6] == frame.channels && s[7] == 0
            &&& s.skip(8) == frame.pcm()
        }),
        packet.codec == AudioCodec::RawPcm,
        packet.seq == frame.seq,
        packet.capture_ts_us == frame.capture_ts_us,
{
    let s = raw_audio_bitstream(frame);
    assert(s.subrange(2, 6) =~= crate::raw::be_bytes(frame.sample_rate));
    crate::raw::lemma_be_roundtrip(frame.sample_rate, s, 2);
    assert(s.skip(8) =~= frame.pcm());
}

/// A packet is refused exactly when it has no full header, another magic byte or version, no sample
/// rate, no channels, or not a whole number of two-byte samples for each channel.
pub proof fn law_raw_audio_refusals(packet: AudioEncodedPacket)
    ensures
        ({
            let s = packet.bitstream();
            raw_audio_fault(packet) is None <==> {
                &&& s.len() >= 8
                &&& s[0] == 0xA0
                &&& s[1] == 1
                &&& s[2] != 0 || s[3] != 0 || s[4] != 0 || s[5] != 0
                &&& s[6] != 0
                &&& (s.len() - 8) % 2 == 0
                &&& ((s.len() - 8) / 2) % (s[6] as int) == 0
            }
        }),
{
}

/// An encoder takes frames of the format that it was made for, and no others.
pub proof fn law_audio_encoder_takes_its_format(encoder: RawAudioEncoder, frame: AudioFrame)
    ensures
        encoder.accepts(frame) <==> frame.sample_rate == encoder.rate() && frame.channels
            == encoder.channel_count(),
{
}

} // verus!
