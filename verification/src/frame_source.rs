//! Where the frames of a video stream come from: a recorded clip, or a live capture.
use vstd::prelude::*;

use crate::buffer::as_slice;
use crate::media::{
    Codec, EncodedPacket, EncoderConfig, FrameType, MediaError, Resolution, ScreenCapturer,
    VideoEncoder, VideoFrame,
};
use crate::raw::push_all;
use crate::text::push_decimal;
use crate::time::{Duration, NANOS_PER_MILLI};

verus! {

/// Captures without a frame after which a live source gives up.
pub const MAX_CAPTURE_SKIPS: u32 = 100;

/// Frames that the encoder may skip in a row before a live source gives up.
pub const MAX_ENCODER_SKIPS: u32 = 60;

/// How long a live source waits for one capture.
pub const CAPTURE_TIMEOUT_MS: u64 = 100;

/// A source could not be made, or could not give a frame.
#[derive(Debug, Clone, PartialEq, Eq)]
pub enum SourceError {
    /// The clip holds no frames.
    EmptyClip,
    /// The frame rate is zero.
    ZeroFps,
    /// The bitrate is zero.
    ZeroBitrate,
    /// The encoder could not be made.
    EncoderInit(MediaError),
    /// Capture gave no frame for too long.
    CaptureStalled,
    /// The encoder skipped too many frames.
    EncoderStalled,
    /// Capture failed.
    Capture(MediaError),
    /// The encoder failed.
    Encode(MediaError),
    /// Another source failed.
    Other(String),
}

impl SourceError {
    /// What the error says.
    pub open spec fn text(self) -> Seq<char> {
        match self {
            SourceError::EmptyClip => "baked H.264 fixture is empty"@,
            SourceError::ZeroFps => "fps must be > 0"@,
            SourceError::ZeroBitrate => "bitrate_kbps must be > 0"@,
            SourceError::EncoderInit(_) =>
                "failed to initialise OpenH264 encoder for live source"@,
            SourceError::CaptureStalled => "capture produced no frame after "@
                + crate::text::decimal(MAX_CAPTURE_SKIPS as nat) + " retries ("@
                + crate::text::decimal((MAX_CAPTURE_SKIPS * CAPTURE_TIMEOUT_MS) as nat)
                + " ms); display may be frozen or capturer misconfigured"@,
            SourceError::EncoderStalled => "encoder skipped "@ + crate::text::decimal(
                MAX_ENCODER_SKIPS as nat,
            )
                + " consecutive frames; check --bitrate-kbps (too low?) or frame dimensions"@,
            SourceError::Capture(e) => "capture failed: "@ + e.text(),
            SourceError::Encode(e) => "encode failed: "@ + e.text(),
            SourceError::Other(m) => m@,
        }
    }

    /// What the error says.
    pub fn to_text(&self) -> (r: String)
        ensures
            r@ == self.text(),
    {
        match self {
            SourceError::EmptyClip => "baked H.264 fixture is empty".to_owned(),
            SourceError::ZeroFps => "fps must be > 0".to_owned(),
            SourceError::ZeroBitrate => "bitrate_kbps must be > 0".to_owned(),
            SourceError::EncoderInit(_) => {
                "failed to initialise OpenH264 encoder for live source".to_owned()
            },
            SourceError::CaptureStalled => {
                let mut s = "capture produced no frame after ".to_owned();
                push_decimal(&mut s, MAX_CAPTURE_SKIPS as u64);
                s.append(" retries (");
                push_decimal(&mut s, MAX_CAPTURE_SKIPS as u64 * CAPTURE_TIMEOUT_MS);
                s.append(" ms); display may be frozen or capturer misconfigured");
                s
            },
            SourceError::EncoderStalled => {
                let mut s = "encoder skipped ".to_owned();
                push_decimal(&mut s, MAX_ENCODER_SKIPS as u64);
                s.append(
                    " consecutive frames; check --bitrate-kbps (too low?) or frame dimensions",
                );
                s
            },
            SourceError::Capture(e) => {
                let mut s = "capture failed: ".to_owned();
                s.append(e.to_text().as_str());
                s
            },
            SourceError::Encode(e) => {
                let mut s = "encode failed: ".to_owned();
                s.append(e.to_text().as_str());
                s
            },
            SourceError::Other(m) => m.clone(),
        }
    }
}

/// Gives the frames of a video stream, one at a time.
pub trait VideoFrameSource: Send {
    /// `r` is an answer that this source gives when it is asked for a frame.
    spec fn yields(&self, r: Result<(FrameType, Vec<u8>), SourceError>) -> bool;

    /// A keyframe was asked for, and the source has seen to it.
    spec fn armed(&self) -> bool;

    /// How often the source was asked for a frame.
    spec fn asked(&self) -> u64;

    /// The next frame.
    fn next_frame(&mut self) -> (r: Result<(FrameType, Vec<u8>), SourceError>)
        ensures
            old(self).yields(r),
            final(self).asked() == crate::media::one_more(old(self).asked()),
    ;

    /// Make the next frame a keyframe. Sources whose frames all stand by themselves, or are never
    /// dropped, need not do anything.
    fn request_keyframe(&mut self)
        ensures
            final(self).armed(),
            final(self).asked() == old(self).asked(),
    ;
}

/// One frame of a clip.
#[derive(Debug, Clone, PartialEq, Eq)]
pub struct BakedFrame {
    /// How the frame was coded.
    pub frame_type: FrameType,
    /// The coded frame.
    pub payload: Vec<u8>,
}

/// A frame as a value: how it was coded, and its bytes.
pub struct FrameView {
    /// How the frame was coded.
    pub frame_type: FrameType,
    /// The coded frame.
    pub payload: Seq<u8>,
}

impl View for BakedFrame {
    type V = FrameView;

    open spec fn view(&self) -> FrameView {
        FrameView { frame_type: self.frame_type, payload: self.payload@ }
    }
}

/// The number whose four bytes, least significant first, stand at the front of `s`.
pub open spec fn le_value(s: Seq<u8>) -> nat {
    (s[0] + s[1] * 0x100 + s[2] * 0x1_0000 + s[3] * 0x100_0000) as nat
}

/// What a type byte stands for.
pub open spec fn frame_type_of(b: u8) -> FrameType {
    if b == 1 {
        FrameType::Idr
    } else if b == 2 {
        FrameType::IntraRefresh
    } else {
        FrameType::Predicted
    }
}

/// A clip starts with a whole frame.
pub open spec fn has_frame(data: Seq<u8>) -> bool {
    data.len() >= 5 && le_value(data) <= data.len() - 5
}

/// The frames of a clip: a length in four bytes, least significant first, a type byte, and the
/// payload, repeated. A rest that is no whole frame is left out.
pub open spec fn clip_frames(data: Seq<u8>) -> Seq<FrameView>
    decreases data.len(),
{
    if has_frame(data) {
        let end = 5 + le_value(data) as int;
        seq![FrameView { frame_type: frame_type_of(data[4]), payload: data.subrange(5, end) }]
            + clip_frames(data.skip(end))
    } else {
        Seq::empty()
    }
}

/// The values of the frames.
pub open spec fn views(frames: Seq<BakedFrame>) -> Seq<FrameView> {
    Seq::new(frames.len(), |i: int| frames[i]@)
}

/// Read the frames of a clip.
pub fn parse_baked_frames(data: &[u8]) -> (r: Vec<BakedFrame>)
    ensures
        views(r@) == clip_frames(data@),
{
    let mut frames: Vec<BakedFrame> = Vec::new();
    let mut at: usize = 0;
    assert(data@.skip(0) =~= data@);
    assert(views(frames@) + clip_frames(data@.skip(0)) =~= clip_frames(data@));
    while data.len() - at >= 5
        invariant
            at <= data@.len(),
            views(frames@) + clip_frames(data@.skip(at as int)) == clip_frames(data@),
        ensures
            at <= data@.len(),
            views(frames@) == clip_frames(data@),
        decreases data@.len() - at,
    {
        let ghost rest = data@.skip(at as int);
        let len: u32 = data[at] as u32 + data[at + 1] as u32 * 0x100 + data[at + 2] as u32
            * 0x1_0000 + data[at + 3] as u32 * 0x100_0000;
        assert(len == le_value(rest));
        let frame_type = match data[at + 4] {
            1 => FrameType::Idr,
            2 => FrameType::IntraRefresh,
            _ => FrameType::Predicted,
        };
        if len as u64 > (data.len() - at - 5) as u64 {
            assert(clip_frames(rest) =~= Seq::empty());
            assert(views(frames@) + clip_frames(rest) =~= views(frames@));
            break;
        }
        let start: usize = at + 5;
        let end: usize = start + len as usize;
        let mut payload: Vec<u8> = Vec::new();
        push_all(&mut payload, vstd::slice::slice_subrange(data, start, end));
        let ghost before = frames@;
        frames.push(BakedFrame { frame_type, payload });
        proof {
            assert(payload@ =~= rest.subrange(5, 5 + len as int));
            assert(rest.skip(5 + len as int) =~= data@.skip(end as int));
            let one = FrameView { frame_type, payload: payload@ };
            assert(views(frames@) =~= views(before).push(one));
            assert(views(before) + clip_frames(rest) =~= views(frames@) + clip_frames(
                data@.skip(end as int),
            ));
        }
        at = end;
    }
    frames
}

/// A source that repeats a clip.
pub struct BakedFrameSource {
    frames: Vec<BakedFrame>,
    index: usize,
    requests: Ghost<u64>,
}

impl BakedFrameSource {
    /// The frames of the clip.
    pub closed spec fn clip(self) -> Seq<FrameView> {
        views(self.frames@)
    }

    /// How many frames have been given.
    pub closed spec fn given(self) -> usize {
        self.index
    }

    /// A source that repeats the frames of the clip in `data`.
    pub fn new(data: &[u8]) -> (r: Self)
        ensures
            r.clip() == clip_frames(data@),
            r.given() == 0,
            r.asked() == 0,
    {
        BakedFrameSource { frames: parse_baked_frames(data), index: 0, requests: Ghost(0u64) }
    }
}

impl VideoFrameSource for BakedFrameSource {
    /// The frames of a clip are what they are.
    open spec fn armed(&self) -> bool {
        true
    }

    closed spec fn asked(&self) -> u64 {
        self.requests@
    }

    /// The frames in turn, starting over at the end; an error when there are none.
    open spec fn yields(&self, r: Result<(FrameType, Vec<u8>), SourceError>) -> bool {
        if self.clip().len() == 0 {
            r matches Err(e) && e is EmptyClip
        } else {
            let frame = self.clip()[self.given() as int % self.clip().len() as int];
            r matches Ok(p) && p.0 == frame.frame_type && p.1@ == frame.payload
        }
    }

    fn next_frame(&mut self) -> (r: Result<(FrameType, Vec<u8>), SourceError>)
        ensures
            final(self).clip() == old(self).clip(),
            final(self).given() == if r is Err {
                old(self).given() as int
            } else if old(self).given() == usize::MAX {
                0
            } else {
                old(self).given() + 1
            },
    {
        self.requests = Ghost(crate::media::one_more(self.requests@));
        if self.frames.len() == 0 {
            return Err(SourceError::EmptyClip);
        }
        let i: usize = self.index % self.frames.len();
        let mut payload: Vec<u8> = Vec::new();
        push_all(&mut payload, self.frames[i].payload.as_slice());
        let frame_type = self.frames[i].frame_type;
        assert(self.clip()[i as int] == self.frames@[i as int]@);
        assert(payload@ =~= self.frames@[i as int].payload@);
        self.index = self.index.wrapping_add(1);
        Ok((frame_type, payload))
    }

    fn request_keyframe(&mut self)
        ensures
            *final(self) == *old(self),
    {
    }
}

/// The configuration of a live encoder.
pub open spec fn live_config(size: Resolution, bitrate_kbps: u32, fps: u32) -> EncoderConfig {
    EncoderConfig {
        codec: Codec::H264,
        resolution: size,
        target_fps: fps,
        target_bitrate_kbps: Some(bitrate_kbps),
    }
}

/// What to do after one capture.
pub enum CaptureStep {
    /// Capture again; so many captures in a row gave no frame.
    Again(u32),
    /// Encode the frame.
    Encode(VideoFrame),
    /// Give up.
    Fail(SourceError),
}

/// What to do after a capture, when `skips` captures in a row gave no frame before it.
pub fn after_capture(skips: u32, got: Result<Option<VideoFrame>, MediaError>) -> (r: CaptureStep)
    ensures
        r == match got {
            Ok(Some(frame)) => CaptureStep::Encode(frame),
            Ok(None) => if skips + 1 < MAX_CAPTURE_SKIPS {
                CaptureStep::Again((skips + 1) as u32)
            } else {
                CaptureStep::Fail(SourceError::CaptureStalled)
            },
            Err(e) => CaptureStep::Fail(SourceError::Capture(e)),
        },
{
    match got {
        Ok(Some(frame)) => CaptureStep::Encode(frame),
        Ok(None) => {
            let n: u32 = skips.saturating_add(1);
            if n < MAX_CAPTURE_SKIPS {
                CaptureStep::Again(n)
            } else {
                CaptureStep::Fail(SourceError::CaptureStalled)
            }
        },
        Err(e) => CaptureStep::Fail(SourceError::Capture(e)),
    }
}

/// What to do after one encode.
pub enum EncodeStep {
    /// Capture and encode again; so many frames in a row were skipped.
    Again(u32),
    /// Give out the packet.
    Deliver(EncodedPacket),
    /// Give up.
    Fail(SourceError),
}

/// What to do after an encode, when `skips` frames in a row were skipped before it.
pub fn after_encode(skips: u32, got: Result<Option<EncodedPacket>, MediaError>) -> (r: EncodeStep)
    ensures
        r == match got {
            Ok(Some(packet)) => EncodeStep::Deliver(packet),
            Ok(None) => if skips + 1 < MAX_ENCODER_SKIPS {
                EncodeStep::Again((skips + 1) as u32)
            } else {
                EncodeStep::Fail(SourceError::EncoderStalled)
            },
            Err(e) => EncodeStep::Fail(SourceError::Encode(e)),
        },
{
    match got {
        Ok(Some(packet)) => EncodeStep::Deliver(packet),
        Ok(None) => {
            let n: u32 = skips.saturating_add(1);
            if n < MAX_ENCODER_SKIPS {
                EncodeStep::Again(n)
            } else {
                EncodeStep::Fail(SourceError::EncoderStalled)
            }
        },
        Err(e) => EncodeStep::Fail(SourceError::Encode(e)),
    }
}

/// A source that captures and encodes.
pub struct LiveFrameSource<C, E> {
    capturer: C,
    encoder: E,
    requests: Ghost<u64>,
}

impl<C: ScreenCapturer, E: VideoEncoder> LiveFrameSource<C, E> {
    /// The next frame will be a keyframe.
    pub closed spec fn primed(self) -> bool {
        self.encoder.primed()
    }

    /// The capturer that the frames come from.
    pub closed spec fn captures(self) -> C {
        self.capturer
    }

    /// The encoder that the frames go to.
    pub closed spec fn encodes(self) -> E {
        self.encoder
    }

    /// Asked for a frame within the capture timeout, `before` answers `r` and becomes `after`.
    pub open spec fn gives(
        before: C,
        r: Result<Option<VideoFrame>, MediaError>,
        after: C,
    ) -> bool {
        exists|timeout: Duration|
            timeout@ == CAPTURE_TIMEOUT_MS * NANOS_PER_MILLI && #[trigger] before.offers(
                timeout,
                r,
                after.size(),
            )
    }

    /// A capturer goes through `states`, and gives no frame on the way.
    pub open spec fn dry(states: Seq<C>) -> bool {
        forall|i: int|
            0 <= i < states.len() - 1 ==> Self::gives(#[trigger] states[i], Ok(None), states[i + 1])
    }

    /// Asked for one frame, `from` gives `frame` and becomes `after`. Fewer than the limit of tries
    /// in a row came back without a frame.
    pub open spec fn captured(from: C, frame: VideoFrame, after: C) -> bool {
        exists|states: Seq<C>| #[trigger]
            Self::waited(from, states) && states.len() <= MAX_CAPTURE_SKIPS && Self::gives(
                states.last(),
                Ok(Some(frame)),
                after,
            )
    }

    /// A capturer starts as `from`, goes through `states`, and gives no frame on the way.
    pub open spec fn waited(from: C, states: Seq<C>) -> bool {
        &&& states.len() > 0
        &&& states[0] == from
        &&& Self::dry(states)
    }

    /// The encoder was `before` and is `after`: it was given one frame and not drained.
    pub open spec fn fed_once(before: E, after: E) -> bool {
        &&& after.lineage() == before.lineage()
        &&& after.tallies() == before.tallies()
        &&& before.tallies() ==> after.fed() == crate::media::one_more(before.fed())
        &&& after.drained() == before.drained()
    }

    /// Starting as they are in this source, the capturer goes through `capturers` and the encoder
    /// through `encoders`, while the one gives `frames` and the other skips them all.
    pub open spec fn skips(
        self,
        capturers: Seq<C>,
        encoders: Seq<E>,
        frames: Seq<VideoFrame>,
    ) -> bool {
        &&& capturers.len() == frames.len() + 1
        &&& encoders.len() == frames.len() + 1
        &&& capturers[0] == self.captures()
        &&& encoders[0] == self.encodes()
        &&& forall|i: int|
            0 <= i < frames.len() ==> {
                &&& Self::captured(capturers[i], #[trigger] frames[i], capturers[i + 1])
                &&& encoders[i].answers(frames[i], Ok(None))
                &&& Self::fed_once(encoders[i], encoders[i + 1])
            }
    }

    /// After fewer skipped frames than the limit, a captured frame is answered `r` by the encoder.
    /// The capturer that gave it has become `after`, and the encoder `coder`.
    pub open spec fn coded(
        self,
        r: Result<Option<EncodedPacket>, MediaError>,
        after: C,
        coder: E,
    ) -> bool {
        exists|
            capturers: Seq<C>,
            encoders: Seq<E>,
            frames: Seq<VideoFrame>,
            frame: VideoFrame,
        |
            {
                &&& #[trigger] self.skips(capturers, encoders, frames)
                &&& frames.len() < MAX_ENCODER_SKIPS
                &&& #[trigger] Self::captured(capturers.last(), frame, after)
                &&& encoders.last().answers(frame, r)
                &&& Self::fed_once(encoders.last(), coder)
            }
    }

    /// After fewer skipped frames than the limit, no frame comes from the capturer, and `e` says
    /// why: it failed, or the limit of tries in a row came back without one.
    pub open spec fn starves(self, e: SourceError) -> bool {
        exists|
            capturers: Seq<C>,
            encoders: Seq<E>,
            frames: Seq<VideoFrame>,
        |
            {
                &&& #[trigger] self.skips(capturers, encoders, frames)
                &&& frames.len() < MAX_ENCODER_SKIPS
                &&& Self::uncaptured(capturers.last(), e)
            }
    }

    /// Asked for one frame, `from` gives none, and `e` says why.
    pub open spec fn uncaptured(from: C, e: SourceError) -> bool {
        match e {
            SourceError::Capture(cause) => exists|states: Seq<C>, after: C| #[trigger]
                Self::waited(from, states) && states.len() <= MAX_CAPTURE_SKIPS
                    && #[trigger] Self::gives(states.last(), Err(cause), after),
            SourceError::CaptureStalled => exists|states: Seq<C>| #[trigger]
                Self::waited(from, states) && states.len() == MAX_CAPTURE_SKIPS + 1,
            _ => false,
        }
    }

    /// `e` says why there is no frame: capture failed, or gave none so many times in a row; the
    /// encoder failed, or skipped so many frames in a row.
    pub open spec fn gives_up(self, e: SourceError) -> bool {
        match e {
            SourceError::Encode(cause) => exists|after: C, coder: E| #[trigger]
                self.coded(Err(cause), after, coder),
            SourceError::EncoderStalled => exists|
                capturers: Seq<C>,
                encoders: Seq<E>,
                frames: Seq<VideoFrame>,
            | #[trigger]
                self.skips(capturers, encoders, frames) && frames.len() == MAX_ENCODER_SKIPS,
            _ => self.starves(e),
        }
    }

    /// A source that encodes what `capturer` gives, with an encoder that `open` makes. Its first
    /// frame is a keyframe.
    pub fn new<F: FnOnce(&EncoderConfig) -> Result<E, MediaError>>(
        capturer: C,
        bitrate_kbps: u32,
        fps: u32,
        open: F,
    ) -> (r: Result<Self, SourceError>)
        requires
            forall|config: EncoderConfig| open.requires((&config,)),
        ensures
            fps == 0 ==> r == Err::<Self, _>(SourceError::ZeroFps),
            fps > 0 && bitrate_kbps == 0 ==> r == Err::<Self, _>(SourceError::ZeroBitrate),
            fps > 0 && bitrate_kbps > 0 ==> match r {
                Ok(source) => {
                    &&& source.primed()
                    &&& source.captures() == capturer
                    &&& source.asked() == 0
                    &&& exists|encoder: E| #[trigger]
                        open.ensures(
                            (&live_config(capturer.size(), bitrate_kbps, fps),),
                            Ok(encoder),
                        ) && source.encodes().lineage() == encoder.lineage()
                        && source.encodes().fed() == encoder.fed()
                        && source.encodes().drained() == encoder.drained()
                },
                Err(e) => e matches SourceError::EncoderInit(cause) && open.ensures(
                    (&live_config(capturer.size(), bitrate_kbps, fps),),
                    Err(cause),
                ),
            },
    {
        if fps == 0 {
            return Err(SourceError::ZeroFps);
        }
        if bitrate_kbps == 0 {
            return Err(SourceError::ZeroBitrate);
        }
        let config = EncoderConfig {
            codec: Codec::H264,
            resolution: capturer.resolution(),
            target_fps: fps,
            target_bitrate_kbps: Some(bitrate_kbps),
        };
        match open(&config) {
            Ok(encoder) => {
                let mut encoder = encoder;
                encoder.request_keyframe();
                Ok(LiveFrameSource { capturer, encoder, requests: Ghost(0u64) })
            },
            Err(e) => Err(SourceError::EncoderInit(e)),
        }
    }

    /// Capture one frame, trying again while there is none.
    fn capture(&mut self) -> (r: Result<VideoFrame, SourceError>)
        ensures
            final(self).encoder == old(self).encoder,
            final(self).requests == old(self).requests,
            match r {
                Ok(frame) => Self::captured(old(self).capturer, frame, final(self).capturer),
                Err(e) => Self::uncaptured(old(self).capturer, e),
            },
    {
        let timeout = Duration::from_millis(CAPTURE_TIMEOUT_MS);
        let mut skips: u32 = 0;
        let ghost mut states: Seq<C> = seq![self.capturer];
        loop
            invariant
                skips < MAX_CAPTURE_SKIPS,
                timeout@ == CAPTURE_TIMEOUT_MS * NANOS_PER_MILLI,
                self.encoder == old(self).encoder,
                self.requests == old(self).requests,
                states.len() == skips + 1,
                states.last() == self.capturer,
                Self::waited(old(self).capturer, states),
            decreases MAX_CAPTURE_SKIPS - skips,
        {
            let got = self.capturer.next_frame(timeout);
            assert(Self::gives(states.last(), got, self.capturer));
            proof {
                if got is Ok && got->Ok_0 is None {
                    let longer = states.push(self.capturer);
                    assert forall|i: int| 0 <= i < longer.len() - 1 implies Self::gives(
                        #[trigger] longer[i],
                        Ok(None),
                        longer[i + 1],
                    ) by {
                        if i < states.len() - 1 {
                            assert(longer[i] == states[i] && longer[i + 1] == states[i + 1]);
                        }
                    }
                    states = longer;
                    assert(Self::waited(old(self).capturer, states));
                }
            }
            match after_capture(skips, got) {
                CaptureStep::Again(n) => {
                    skips = n;
                },
                CaptureStep::Encode(frame) => {
                    return Ok(frame);
                },
                CaptureStep::Fail(e) => {
                    return Err(e);
                },
            }
        }
    }
}

impl<C: ScreenCapturer, E: VideoEncoder> VideoFrameSource for LiveFrameSource<C, E> {
    /// The next frame will be a keyframe.
    open spec fn armed(&self) -> bool {
        self.primed()
    }

    closed spec fn asked(&self) -> u64 {
        self.requests@
    }

    /// The first packet that the encoder makes of a captured frame, and a keyframe when one is due;
    /// or an error once capture or the encoder failed or stalled.
    open spec fn yields(&self, r: Result<(FrameType, Vec<u8>), SourceError>) -> bool {
        match r {
            Ok(p) => {
                &&& self.primed() ==> p.0 is Idr
                &&& exists|packet: EncodedPacket, after: C, coder: E| #[trigger]
                    self.coded(Ok(Some(packet)), after, coder) && packet.frame_type == p.0
                        && packet.bitstream() == p.1@
            },
            Err(e) => self.gives_up(e),
        }
    }

    fn next_frame(&mut self) -> (r: Result<(FrameType, Vec<u8>), SourceError>)
        ensures
            r matches Ok(p) ==> exists|packet: EncodedPacket| #[trigger]
                old(self).coded(Ok(Some(packet)), final(self).captures(), final(self).encodes())
                    && packet.frame_type == p.0 && packet.bitstream() == p.1@,
            final(self).encodes().lineage() == old(self).encodes().lineage(),
    {
        self.requests = Ghost(crate::media::one_more(self.requests@));
        let mut skips: u32 = 0;
        let ghost mut capturers: Seq<C> = seq![self.capturer];
        let ghost mut encoders: Seq<E> = seq![self.encoder];
        let ghost mut frames: Seq<VideoFrame> = Seq::empty();
        loop
            invariant
                skips < MAX_ENCODER_SKIPS,
                old(self).primed() ==> self.primed(),
                self.encoder.lineage() == old(self).encoder.lineage(),
                self.requests@ == crate::media::one_more(old(self).requests@),
                frames.len() == skips,
                old(self).skips(capturers, encoders, frames),
                capturers.last() == self.capturer,
                encoders.last() == self.encoder,
            decreases MAX_ENCODER_SKIPS - skips,
        {
            let frame = match self.capture() {
                Ok(frame) => frame,
                Err(e) => {
                    return Err(e);
                },
            };
            let got = self.encoder.encode(&frame);
            assert(Self::captured(capturers.last(), frame, self.capturer));
            assert(encoders.last().answers(frame, got));
            assert(old(self).coded(got, self.capturer, self.encoder));
            proof {
                if got is Ok && got->Ok_0 is None {
                    let all = frames.push(frame);
                    let via = capturers.push(self.capturer);
                    let by = encoders.push(self.encoder);
                    assert forall|i: int| 0 <= i < all.len() implies {
                        &&& Self::captured(via[i], #[trigger] all[i], via[i + 1])
                        &&& by[i].answers(all[i], Ok(None))
                        &&& Self::fed_once(by[i], by[i + 1])
                    } by {
                        if i < frames.len() {
                            assert(all[i] == frames[i]);
                        }
                    }
                    frames = all;
                    capturers = via;
                    encoders = by;
                    assert(old(self).skips(capturers, encoders, frames));
                }
            }
            match after_encode(skips, got) {
                EncodeStep::Again(n) => {
                    skips = n;
                },
                EncodeStep::Deliver(packet) => {
                    let mut data: Vec<u8> = Vec::new();
                    push_all(&mut data, as_slice(&packet.data));
                    assert(data@ =~= packet.bitstream());
                    assert(old(self).coded(Ok(Some(packet)), self.captures(), self.encodes()));
                    return Ok((packet.frame_type, data));
                },
                EncodeStep::Fail(e) => {
                    return Err(e);
                },
            }
        }
    }

    fn request_keyframe(&mut self)
        ensures
            final(self).captures() == old(self).captures(),
            final(self).encodes().lineage() == old(self).encodes().lineage(),
            final(self).encodes().fed() == old(self).encodes().fed(),
            final(self).encodes().drained() == old(self).encodes().drained(),
    {
        self.encoder.request_keyframe();
    }
}

/// A live source that was asked for a keyframe gives one next, if it gives a frame at all. So a
/// keyframe that has to be dropped is made up for.
pub proof fn law_armed_source_gives_a_keyframe<C: ScreenCapturer, E: VideoEncoder>(
    source: LiveFrameSource<C, E>,
    frame: (FrameType, Vec<u8>),
)
    requires
        source.armed(),
        source.yields(Ok(frame)),
    ensures
        frame.0 is Idr,
{
}

/// The bytes of a clip with these frames.
pub open spec fn clip_bytes(frames: Seq<FrameView>) -> Seq<u8>
    decreases frames.len(),
{
    if frames.len() == 0 {
        Seq::empty()
    } else {
        let f = frames[0];
        let n = f.payload.len();
        let code: u8 = match f.frame_type {
            FrameType::Idr => 1,
            FrameType::IntraRefresh => 2,
            FrameType::Predicted => 0,
        };
        seq![
            (n % 0x100) as u8,
            (n / 0x100 % 0x100) as u8,
            (n / 0x1_0000 % 0x100) as u8,
            (n / 0x100_0000) as u8,
            code,
        ] + f.payload + clip_bytes(frames.skip(1))
    }
}

/// Reading a written clip gives its frames, and a rest too short for a frame does no harm.
pub proof fn law_clip_roundtrip(frames: Seq<FrameView>, rest: Seq<u8>)
    requires
        forall|i: int| 0 <= i < frames.len() ==> #[trigger] frames[i].payload.len() < 0x1_0000_0000,
        rest.len() < 5,
    ensures
        clip_frames(clip_bytes(frames) + rest) == frames,
    decreases frames.len(),
{
    let data = clip_bytes(frames) + rest;
    if frames.len() == 0 {
        assert(data =~= rest);
        assert(clip_frames(data) =~= frames);
    } else {
        let f = frames[0];
        let n = f.payload.len();
        let t = frames.skip(1);
        assert forall|i: int| 0 <= i < t.len() implies #[trigger] t[i].payload.len()
            < 0x1_0000_0000 by {
            assert(t[i] == frames[i + 1]);
        }
        law_clip_roundtrip(t, rest);
        assert(n / 0x100_0000 < 0x100);
        assert(n == n % 0x100 + (n / 0x100 % 0x100) * 0x100 + (n / 0x1_0000 % 0x100) * 0x1_0000 + (n
            / 0x100_0000) * 0x100_0000);
        assert(le_value(data) == n);
        assert(data.skip(5 + n as int) =~= clip_bytes(t) + rest);
        assert(data.subrange(5, 5 + n as int) =~= f.payload);
        assert(clip_frames(data) =~= seq![f] + t);
        assert(seq![f] + t =~= frames);
    }
}

/// A clip is read frame by frame: what is written in front of any other bytes is read first, and
/// the rest is read as a clip by itself.
pub proof fn law_clips_are_read_in_order(frames: Seq<FrameView>, rest: Seq<u8>)
    requires
        forall|i: int| 0 <= i < frames.len() ==> #[trigger] frames[i].payload.len() < 0x1_0000_0000,
    ensures
        clip_frames(clip_bytes(frames) + rest) == frames + clip_frames(rest),
    decreases frames.len(),
{
    let data = clip_bytes(frames) + rest;
    if frames.len() == 0 {
        assert(data =~= rest);
        assert(frames + clip_frames(rest) =~= clip_frames(rest));
    } else {
        let f = frames[0];
        let n = f.payload.len();
        let t = frames.skip(1);
        assert forall|i: int| 0 <= i < t.len() implies #[trigger] t[i].payload.len()
            < 0x1_0000_0000 by {
            assert(t[i] == frames[i + 1]);
        }
        law_clips_are_read_in_order(t, rest);
        assert(n / 0x100_0000 < 0x100);
        assert(n == n % 0x100 + (n / 0x100 % 0x100) * 0x100 + (n / 0x1_0000 % 0x100) * 0x1_0000 + (n
            / 0x100_0000) * 0x100_0000);
        assert(le_value(data) == n);
        assert(data.skip(5 + n as int) =~= clip_bytes(t) + rest);
        assert(data.subrange(5, 5 + n as int) =~= f.payload);
        assert(clip_frames(data) =~= seq![f] + (t + clip_frames(rest)));
        assert(seq![f] + (t + clip_frames(rest)) =~= frames + clip_frames(rest));
    }
}

/// A clip holds no frame exactly when it is shorter than a header, or than its first frame says.
/// The byte behind the length says how a frame was coded: 1 for a keyframe, 2 for a refresh, and
/// anything else for a predicted frame.
pub proof fn law_first_frame_of_a_clip(data: Seq<u8>)
    ensures
        ({
            let n = data[0] + data[1] * 0x100 + data[2] * 0x1_0000 + data[3] * 0x100_0000;
            let frames = clip_frames(data);
            &&& frames.len() == 0 <==> data.len() < 5 || data.len() < 5 + n
            &&& frames.len() > 0 ==> {
                &&& frames[0].payload == data.subrange(5, 5 + n)
                &&& frames[0].frame_type is Idr <==> data[4] == 1
                &&& frames[0].frame_type is IntraRefresh <==> data[4] == 2
                &&& frames.skip(1) == clip_frames(data.skip(5 + n))
            }
        }),
{
    let frames = clip_frames(data);
    if has_frame(data) {
        let end = 5 + le_value(data) as int;
        assert(frames.skip(1) =~= clip_frames(data.skip(end)));
    }
}

/// A live encoder is asked for H.264 at the size, rate and bitrate of the source.
pub proof fn law_live_configuration(size: Resolution, bitrate_kbps: u32, fps: u32)
    ensures
        live_config(size, bitrate_kbps, fps).codec == Codec::H264,
        live_config(size, bitrate_kbps, fps).resolution == size,
        live_config(size, bitrate_kbps, fps).target_fps == fps,
        live_config(size, bitrate_kbps, fps).target_bitrate_kbps == Some(bitrate_kbps),
{
}

/// A live source waits for a frame a hundred times in a row, a tenth of a second each time, before
/// it gives up on capture; and lets the encoder skip sixty frames in a row before it gives up on it.
pub proof fn law_live_source_has_patience<C: ScreenCapturer, E: VideoEncoder>(
    source: LiveFrameSource<C, E>,
    from: C,
    frame: VideoFrame,
    after: C,
)
    ensures
        LiveFrameSource::<C, E>::uncaptured(from, SourceError::CaptureStalled) ==> exists|
            states: Seq<C>,
        | #[trigger]
            LiveFrameSource::<C, E>::dry(states) && states.len() == 101 && states[0] == from,
        LiveFrameSource::<C, E>::captured(from, frame, after) ==> exists|states: Seq<C>| #[trigger]
            LiveFrameSource::<C, E>::dry(states) && 1 <= states.len() <= 100 && states[0] == from
                && LiveFrameSource::<C, E>::gives(states.last(), Ok(Some(frame)), after),
        source.gives_up(SourceError::EncoderStalled) ==> exists|
            capturers: Seq<C>,
            encoders: Seq<E>,
            frames: Seq<VideoFrame>,
        | #[trigger]
            source.skips(capturers, encoders, frames) && frames.len() == 60,
        CAPTURE_TIMEOUT_MS == 100,
{
    if LiveFrameSource::<C, E>::uncaptured(from, SourceError::CaptureStalled) {
        let states = choose|states: Seq<C>| #[trigger]
            LiveFrameSource::<C, E>::waited(from, states) && states.len() == MAX_CAPTURE_SKIPS + 1;
        assert(LiveFrameSource::<C, E>::dry(states));
    }
    if LiveFrameSource::<C, E>::captured(from, frame, after) {
        let states = choose|states: Seq<C>| #[trigger]
            LiveFrameSource::<C, E>::waited(from, states) && states.len() <= MAX_CAPTURE_SKIPS
                && LiveFrameSource::<C, E>::gives(states.last(), Ok(Some(frame)), after);
        assert(LiveFrameSource::<C, E>::dry(states));
    }
}

/// A source that repeats a clip gives its frames in turn, over and over, and an error when there are
/// none.
pub proof fn law_clip_is_repeated(
    source: BakedFrameSource,
    r: Result<(FrameType, Vec<u8>), SourceError>,
    rounds: int,
    i: int,
)
    requires
        source.yields(r),
        source.clip().len() > 0 ==> 0 <= i < source.clip().len() && rounds >= 0 && source.given()
            == rounds * source.clip().len() + i,
    ensures
        source.clip().len() == 0 ==> r is Err && r->Err_0 is EmptyClip,
        source.clip().len() > 0 ==> r is Ok && r->Ok_0.0 == source.clip()[i].frame_type
            && r->Ok_0.1@ == source.clip()[i].payload,
        source.armed(),
{
    if source.clip().len() > 0 {
        vstd::arithmetic::div_mod::lemma_fundamental_div_mod_converse(
            source.given() as int,
            source.clip().len() as int,
            rounds,
            i,
        );
    }
}

/// A live source gives the first packet that comes of its own encoder. Its capturer gives frames one
/// after another, each goes to the encoder as it came, all but the last are skipped, and what the
/// last is answered with goes out unchanged.
pub proof fn law_live_source_gives_the_first_packet<C: ScreenCapturer, E: VideoEncoder>(
    source: LiveFrameSource<C, E>,
    p: (FrameType, Vec<u8>),
)
    requires
        source.yields(Ok(p)),
    ensures
        exists|
            capturers: Seq<C>,
            encoders: Seq<E>,
            frames: Seq<VideoFrame>,
            packet: EncodedPacket,
        |
            {
                &&& 1 <= frames.len() <= 60
                &&& #[trigger] capturers.len() == frames.len()
                &&& #[trigger] encoders.len() == frames.len()
                &&& capturers[0] == source.captures()
                &&& encoders[0] == source.encodes()
                &&& forall|i: int|
                    0 <= i < frames.len() - 1 ==> (#[trigger] encoders[i]).answers(
                        frames[i],
                        Ok(None),
                    )
                &&& #[trigger] encoders.last().answers(frames.last(), Ok(Some(packet)))
                &&& packet.frame_type == p.0
                &&& packet.bitstream() == p.1@
            },
        source.primed() ==> p.0 is Idr,
{
    let (packet, after, coder) = choose|packet: EncodedPacket, after: C, coder: E| #[trigger]
        source.coded(Ok(Some(packet)), after, coder) && packet.frame_type == p.0
            && packet.bitstream() == p.1@;
    assert(source.coded(Ok(Some(packet)), after, coder));
    let (capturers, encoders, frames, frame) = choose|
        capturers: Seq<C>,
        encoders: Seq<E>,
        frames: Seq<VideoFrame>,
        frame: VideoFrame,
    |
        {
            &&& #[trigger] source.skips(capturers, encoders, frames)
            &&& frames.len() < MAX_ENCODER_SKIPS
            &&& #[trigger] LiveFrameSource::<C, E>::captured(capturers.last(), frame, after)
            &&& encoders.last().answers(frame, Ok(Some(packet)))
            &&& LiveFrameSource::<C, E>::fed_once(encoders.last(), coder)
        };
    let all = frames.push(frame);
    assert(all.last() == frame);
    assert(capturers.len() == all.len());
    assert(encoders.len() == all.len());
    assert forall|i: int| 0 <= i < all.len() - 1 implies (#[trigger] encoders[i]).answers(
        all[i],
        Ok(None),
    ) by {
        assert(all[i] == frames[i]);
    }
    assert(encoders.last().answers(all.last(), Ok(Some(packet))));
}

} // verus!
