use bytes::Bytes;
use streamhaul::capture::{crop_to_even, scale_down, DownscaleCapturer, EvenDimCapturer};
use streamhaul::frame_source::{
    after_capture, after_encode, CaptureStep, EncodeStep, LiveFrameSource, SourceError,
    VideoFrameSource, MAX_CAPTURE_SKIPS, MAX_ENCODER_SKIPS,
};
use streamhaul::media::{
    Codec, EncodedPacket, EncoderCaps, EncoderConfig, FrameId, FrameType, MediaError, PixelFormat,
    Resolution, ScreenCapturer, TimestampUs, VideoEncoder, VideoFrame,
};
use streamhaul::shp::build_shp_video_frame;
use streamhaul::time::Duration;

/// A capturer of a moving test pattern.
struct SyntheticCapturer {
    resolution: Resolution,
    fps: u32,
    next: u64,
}

impl SyntheticCapturer {
    fn new(resolution: Resolution, fps: u32) -> Self {
        SyntheticCapturer { resolution, fps, next: 0 }
    }
}

impl ScreenCapturer for SyntheticCapturer {
    fn size(&self) -> Resolution {
        self.resolution
    }

    fn layout(&self) -> PixelFormat {
        PixelFormat::Bgra8
    }

    fn offers(
        &self,
        _timeout: Duration,
        r: Result<Option<VideoFrame>, MediaError>,
        after: Resolution,
    ) -> bool {
        matches!(r, Ok(Some(_))) && after == self.resolution
    }

    fn asked(&self) -> u64 {
        self.next
    }

    fn next_frame(&mut self, _timeout: Duration) -> Result<Option<VideoFrame>, MediaError> {
        let id = self.next;
        self.next += 1;
        let len = PixelFormat::Bgra8.frame_len(self.resolution);
        let data: Vec<u8> = (0..len).map(|i| (i as u64 + id) as u8).collect();
        Ok(Some(VideoFrame {
            data: Bytes::from(data),
            format: PixelFormat::Bgra8,
            resolution: self.resolution,
            frame_id: FrameId(id),
            capture_ts_us: TimestampUs(id * 1_000_000 / u64::from(self.fps)),
        }))
    }

    fn resolution(&self) -> Resolution {
        self.resolution
    }

    fn pixel_format(&self) -> PixelFormat {
        PixelFormat::Bgra8
    }
}

/// An encoder of tiny Annex-B access units: a keyframe when one was asked for, else a predicted
/// frame; it skips as many frames as it is told to.
struct StubEncoder {
    resolution: Resolution,
    keyframe: bool,
    skips: u32,
}

impl StubEncoder {
    fn with_config(config: &EncoderConfig) -> Result<Self, MediaError> {
        assert_eq!(config.codec, Codec::H264);
        if config.resolution.width == 0 {
            return Err(MediaError::Unsupported("no pixels".to_owned()));
        }
        Ok(StubEncoder { resolution: config.resolution, keyframe: false, skips: 0 })
    }
}

impl VideoEncoder for StubEncoder {
    fn lineage(&self) -> u64 {
        0
    }

    fn tallies(&self) -> bool {
        false
    }

    fn fed(&self) -> u64 {
        0
    }

    fn drained(&self) -> u64 {
        0
    }

    fn primed(&self) -> bool {
        self.keyframe
    }

    fn answers(&self, _frame: VideoFrame, _r: Result<Option<EncodedPacket>, MediaError>) -> bool {
        true
    }

    fn drains(&self, _r: Result<Vec<EncodedPacket>, MediaError>) -> bool {
        true
    }

    fn encode(&mut self, frame: &VideoFrame) -> Result<Option<EncodedPacket>, MediaError> {
        frame.validate_len()?;
        if frame.resolution != self.resolution {
            return Err(MediaError::Encode("size changed".to_owned()));
        }
        if self.skips > 0 {
            self.skips -= 1;
            return Ok(None);
        }
        let frame_type = if self.keyframe { FrameType::Idr } else { FrameType::Predicted };
        self.keyframe = false;
        Ok(Some(EncodedPacket {
            data: Bytes::from(vec![0, 0, 0, 1, 0x65, frame.frame_id.0 as u8]),
            codec: Codec::H264,
            frame_id: frame.frame_id,
            capture_ts_us: frame.capture_ts_us,
            frame_type,
        }))
    }

    fn request_keyframe(&mut self) {
        self.keyframe = true;
    }

    fn flush(&mut self) -> Result<Vec<EncodedPacket>, MediaError> {
        Ok(Vec::new())
    }

    fn caps(&self) -> EncoderCaps {
        EncoderCaps {
            codec: Codec::H264,
            hardware: false,
            max_resolution: self.resolution,
            accepted_input_formats: vec![PixelFormat::Bgra8],
        }
    }
}

/// A capturer that never has a frame.
struct Frozen;

impl ScreenCapturer for Frozen {
    fn size(&self) -> Resolution {
        Resolution::new(2, 2)
    }

    fn layout(&self) -> PixelFormat {
        PixelFormat::Bgra8
    }

    fn offers(
        &self,
        _timeout: Duration,
        _r: Result<Option<VideoFrame>, MediaError>,
        _after: Resolution,
    ) -> bool {
        true
    }

    fn asked(&self) -> u64 {
        0
    }

    fn next_frame(&mut self, timeout: Duration) -> Result<Option<VideoFrame>, MediaError> {
        assert_eq!(timeout, Duration::from_millis(100));
        Ok(None)
    }

    fn resolution(&self) -> Resolution {
        Resolution::new(2, 2)
    }

    fn pixel_format(&self) -> PixelFormat {
        PixelFormat::Bgra8
    }
}

fn bgra(width: u32, height: u32) -> VideoFrame {
    let len = width as usize * height as usize * 4;
    VideoFrame {
        data: Bytes::from((0..len).map(|i| (i / 4) as u8).collect::<Vec<u8>>()),
        format: PixelFormat::Bgra8,
        resolution: Resolution::new(width, height),
        frame_id: FrameId(9),
        capture_ts_us: TimestampUs(8),
    }
}

/// A one-shot capturer that emits a single caller-specified frame (for exercising the format /
/// dimension branches of [`EvenDimCapturer`] that `SyntheticCapturer` can't reach).
struct OneFrame(Option<VideoFrame>, Resolution, PixelFormat);
impl ScreenCapturer for OneFrame {
    fn size(&self) -> Resolution {
        self.1
    }

    fn layout(&self) -> PixelFormat {
        self.2
    }

    fn offers(
        &self,
        _timeout: Duration,
        _r: Result<Option<VideoFrame>, MediaError>,
        _after: Resolution,
    ) -> bool {
        true
    }

    fn asked(&self) -> u64 {
        0
    }

    fn next_frame(&mut self, _t: Duration) -> Result<Option<VideoFrame>, MediaError> {
        Ok(self.0.take())
    }
    fn resolution(&self) -> Resolution {
        self.1
    }
    fn pixel_format(&self) -> PixelFormat {
        self.2
    }
}

#[test]
fn even_dim_capturer_passes_even_frames_through() {
    let cap = SyntheticCapturer::new(Resolution::new(64, 48), 30);
    let mut even = EvenDimCapturer::new(cap);
    assert_eq!(even.resolution(), Resolution::new(64, 48));
    let f = even.next_frame(Duration::zero()).unwrap().unwrap();
    assert_eq!(f.resolution, Resolution::new(64, 48));
    assert_eq!(f.data.len(), 64 * 48 * 4);
}

#[test]
fn even_dim_capturer_crops_asymmetric_dimensions() {
    // Odd width only, then odd height only — the trickiest stride cases (one axis cropped, the
    // other not). Both must land on the even floor with a self-consistent BGRA buffer.
    for (in_w, in_h) in [(65u32, 48u32), (64, 49)] {
        let cap = SyntheticCapturer::new(Resolution::new(in_w, in_h), 30);
        let mut even = EvenDimCapturer::new(cap);
        let f = even.next_frame(Duration::zero()).unwrap().unwrap();
        assert_eq!(
            f.resolution,
            Resolution::new(64, 48),
            "for input {in_w}x{in_h}"
        );
        assert_eq!(f.data.len(), 64 * 48 * 4);
    }
}

#[test]
fn even_dim_capturer_rejects_too_small_display() {
    // 1x1 → even floor 0x0 → cannot crop to a non-empty even region.
    let cap = SyntheticCapturer::new(Resolution::new(1, 1), 30);
    let mut even = EvenDimCapturer::new(cap);
    assert!(matches!(
        even.next_frame(Duration::zero()),
        Err(MediaError::Capture(_))
    ));
}

#[test]
fn even_dim_capturer_rejects_non_bgra_with_odd_dims() {
    // A non-BGRA frame with odd dims can't be cropped generically → Unsupported.
    let frame = VideoFrame {
        data: Bytes::from(vec![0u8; 65 * 48 * 3 / 2]), // I420-ish size; irrelevant to the guard
        format: PixelFormat::I420,
        resolution: Resolution::new(65, 48),
        frame_id: FrameId(0),
        capture_ts_us: TimestampUs(0),
    };
    let mut even = EvenDimCapturer::new(OneFrame(
        Some(frame),
        Resolution::new(65, 48),
        PixelFormat::I420,
    ));
    assert!(matches!(
        even.next_frame(Duration::zero()),
        Err(MediaError::Unsupported(_))
    ));
}

#[test]
fn even_dim_capturer_crops_odd_frames() {
    // SyntheticCapturer emits the size it's told; feed it odd dims and verify the crop.
    let cap = SyntheticCapturer::new(Resolution::new(65, 49), 30);
    let mut even = EvenDimCapturer::new(cap);
    assert_eq!(even.resolution(), Resolution::new(64, 48));
    let f = even.next_frame(Duration::zero()).unwrap().unwrap();
    assert_eq!(f.resolution, Resolution::new(64, 48));
    assert_eq!(f.data.len(), 64 * 48 * 4);
    // The cropped frame must encode cleanly (even dims) — the whole point of the adapter.
    let cfg = EncoderConfig {
        codec: Codec::H264,
        resolution: Resolution::new(64, 48),
        target_fps: 30,
        target_bitrate_kbps: Some(1_000),
    };
    let mut enc = StubEncoder::with_config(&cfg).unwrap();
    enc.request_keyframe();
    assert!(enc.encode(&f).unwrap().is_some());
}

#[test]
fn downscale_factor_is_correct() {
    // 1920 / 960 = exactly 2; ceil(1920/960) = 2.
    let cap = SyntheticCapturer::new(Resolution::new(1920, 1080), 30);
    let dc = DownscaleCapturer::new(cap, 960);
    assert_eq!(dc.factor(), 2);
    assert_eq!(dc.resolution(), Resolution::new(960, 540));
}

#[test]
fn downscale_factor_rounds_up() {
    // 1921 / 960 = 2.00104...; ceil = 3.  output = (1921/3, 1080/3) = (640, 360).
    let cap = SyntheticCapturer::new(Resolution::new(1921, 1080), 30);
    let dc = DownscaleCapturer::new(cap, 960);
    assert_eq!(dc.factor(), 3);
    assert_eq!(dc.resolution(), Resolution::new(640, 360));
}

#[test]
fn no_downscale_when_width_fits() {
    // 800 ≤ 960 → factor 1, no copy.
    let cap = SyntheticCapturer::new(Resolution::new(800, 600), 30);
    let mut dc = DownscaleCapturer::new(cap, 960);
    assert_eq!(dc.factor(), 1);
    let frame = dc.next_frame(Duration::zero()).unwrap().unwrap();
    assert_eq!(frame.resolution, Resolution::new(800, 600));
}

#[test]
fn live_frame_source_via_synthetic_produces_idr() {
    // SyntheticCapturer at 160×120 → DownscaleCapturer (no-op) → EvenDimCapturer → LiveFrameSource.
    // 160×120 is already small and even so both adapters are no-ops here; the test exercises
    // the full encode path without a display.
    let cap = SyntheticCapturer::new(Resolution::new(160, 120), 30);
    let dc = DownscaleCapturer::new(cap, 960);
    let even = EvenDimCapturer::new(dc);
    let mut src =
        LiveFrameSource::new(even, 2_000, 30, StubEncoder::with_config).expect("LiveFrameSource must init at 160x120");

    let (frame_type, payload) = src.next_frame().expect("first frame must succeed");
    assert_eq!(frame_type, FrameType::Idr, "first frame must be IDR");
    assert!(
        payload.starts_with(&[0, 0, 0, 1]) || payload.starts_with(&[0, 0, 1]),
        "payload must be Annex-B (start code not found)"
    );
    assert!(
        payload.len() <= usize::from(u16::MAX),
        "frame must fit in SHP 64 KB cap: {} bytes",
        payload.len()
    );
}

#[test]
fn downscaled_oversize_frame_encodes_within_shp_cap() {
    // Exercise the REAL downscale copy path (factor > 1) through the encoder + size cap: a large
    // 1920×1440 source at --max-width 480 → factor 4 → 480×360, then encode. Asserts the encoded
    // frame is a valid Annex-B IDR that fits the SHP 64 KiB cap (the whole point of downscaling).
    let cap = SyntheticCapturer::new(Resolution::new(1920, 1440), 30);
    let dc = DownscaleCapturer::new(cap, 480);
    assert_eq!(dc.factor(), 4);
    assert_eq!(dc.resolution(), Resolution::new(480, 360));
    let even = EvenDimCapturer::new(dc);
    let mut src = LiveFrameSource::new(even, 2_000, 30, StubEncoder::with_config).expect("LiveFrameSource init");

    let (frame_type, payload) = src.next_frame().expect("first frame must succeed");
    assert_eq!(frame_type, FrameType::Idr);
    assert!(
        payload.starts_with(&[0, 0, 0, 1]) || payload.starts_with(&[0, 0, 1]),
        "payload must be Annex-B"
    );
    assert!(
        payload.len() <= usize::from(u16::MAX),
        "downscaled frame must fit the SHP 64 KiB cap: {} bytes",
        payload.len()
    );
}

/// Build the capture chain that the binary uses (synthetic instead of X11).
///
/// `SyntheticCapturer(160×120) → DownscaleCapturer(max_width=960) → EvenDimCapturer → LiveFrameSource`
///
/// 160×120 is already ≤ 960 and even, so both adapters are no-ops here; the test still
/// exercises the full encode+SHP-frame path.
fn make_live_source() -> LiveFrameSource<EvenDimCapturer<DownscaleCapturer<SyntheticCapturer>>, StubEncoder> {
    let cap = SyntheticCapturer::new(Resolution::new(160, 120), 30);
    let dc = DownscaleCapturer::new(cap, 960);
    let even = EvenDimCapturer::new(dc);
    LiveFrameSource::new(even, 2_000, 30, StubEncoder::with_config).expect("LiveFrameSource must init at 160x120@2Mbps")
}

/// The first frame from a fresh `LiveFrameSource` must be an IDR (the encoder is armed with
/// `request_keyframe` at construction), must be valid Annex-B, must fit the SHP 64 KB cap, and
/// must be accepted by `build_shp_video_frame` (the same framing the streaming loop uses).
#[test]
fn first_frame_is_idr_annex_b_and_fits_shp_cap() {
    let mut source = make_live_source();

    let (frame_type, payload) = source.next_frame().expect("first frame must succeed");

    // Must be IDR — the encoder is armed with request_keyframe() in LiveFrameSource::new.
    assert_eq!(
        frame_type,
        FrameType::Idr,
        "first frame from LiveFrameSource must be IDR"
    );

    // Must be Annex-B: 3-byte or 4-byte start code.
    assert!(
        payload.starts_with(&[0, 0, 0, 1]) || payload.starts_with(&[0, 0, 1]),
        "payload must be Annex-B (got first bytes: {:?})",
        payload.get(..4.min(payload.len()))
    );

    // Must fit in the SHP 16-bit payload_len cap.
    assert!(
        payload.len() <= usize::from(u16::MAX),
        "encoded frame must fit in SHP 64 KB cap; got {} bytes",
        payload.len()
    );

    // Must be accepted by build_shp_video_frame — the same framing the streaming loop uses.
    let shp = build_shp_video_frame(0, 0, 0, frame_type, &payload)
        .expect("build_shp_video_frame must accept the frame");

    // The common header reports the payload length.
    assert_eq!(
        usize::from(shp.common.payload_len),
        payload.len(),
        "CommonHeader.payload_len must match the encoded payload length"
    );
}

/// `DownscaleCapturer` reduces a wide frame to ≤ `max_width` and the result encodes correctly.
#[test]
fn downscale_capturer_reduces_oversized_frame_and_encodes() {
    // 2000×1500 @ max_width=960 → factor=ceil(2000/960)=3 → output 666×500.
    let cap = SyntheticCapturer::new(Resolution::new(2000, 1500), 30);
    let mut dc = DownscaleCapturer::new(cap, 960);

    // Resolution must reflect the downscaled size.
    assert!(
        dc.resolution().width <= 960,
        "DownscaleCapturer resolution width must be ≤ max_width, got {}",
        dc.resolution().width
    );

    // next_frame must produce a frame at the downscaled resolution.
    let frame = dc
        .next_frame(Duration::zero())
        .expect("capture must succeed")
        .expect("SyntheticCapturer always produces a frame");
    assert!(
        frame.resolution.width <= 960,
        "downscaled frame width must be ≤ 960, got {}",
        frame.resolution.width
    );
    assert_eq!(frame.resolution.width, dc.resolution().width);
    assert_eq!(frame.resolution.height, dc.resolution().height);
}

/// `DownscaleCapturer` is a no-op (factor=1) when the frame is already narrow enough.
#[test]
fn downscale_capturer_is_noop_for_narrow_frames() {
    let cap = SyntheticCapturer::new(Resolution::new(640, 480), 30);
    let mut dc = DownscaleCapturer::new(cap, 960);

    assert_eq!(dc.resolution(), Resolution::new(640, 480));
    let frame = dc
        .next_frame(Duration::zero())
        .expect("capture must succeed")
        .expect("must produce a frame");
    assert_eq!(frame.resolution, Resolution::new(640, 480));
    // No pixel copy: data length must match original (640*480*4).
    assert_eq!(frame.data.len(), 640 * 480 * 4);
}

#[test]
fn cropping_keeps_the_top_left_pixels() {
    let out = crop_to_even(bgra(3, 3)).unwrap();
    assert_eq!(out.resolution, Resolution::new(2, 2));
    let pixels: Vec<u8> = out.data.iter().step_by(4).copied().collect();
    assert_eq!(pixels, vec![0, 1, 3, 4]);
    assert_eq!(out.frame_id, FrameId(9));
    assert_eq!(out.capture_ts_us, TimestampUs(8));
    let again = crop_to_even(out.clone()).unwrap();
    assert_eq!(again, out);
}

#[test]
fn scaling_samples_every_step() {
    let out = scale_down(bgra(5, 4), 2).unwrap();
    assert_eq!(out.resolution, Resolution::new(2, 2));
    let pixels: Vec<u8> = out.data.iter().step_by(4).copied().collect();
    assert_eq!(pixels, vec![0, 2, 10, 12]);
    assert!(out.validate_len().is_ok());
    assert_eq!(scale_down(bgra(5, 4), 1).unwrap(), bgra(5, 4));
}

#[test]
fn bad_frames_are_not_scaled() {
    let mut padded = bgra(4, 2);
    padded.data = Bytes::from(vec![0; 40]);
    assert!(matches!(scale_down(padded, 2), Err(MediaError::Capture(_) | MediaError::Unsupported(_))));
    let mut planar = bgra(4, 2);
    planar.format = PixelFormat::Nv12;
    assert!(matches!(scale_down(planar, 2), Err(MediaError::Unsupported(_))));
    assert!(scale_down(bgra(4, 2), 3).is_err());
}

#[test]
fn short_frames_are_not_cropped() {
    let mut short = bgra(3, 3);
    short.data = Bytes::from(vec![0; 8]);
    assert_eq!(
        crop_to_even(short).unwrap_err(),
        MediaError::Capture("crop row out of bounds".to_owned())
    );
}

#[test]
fn a_width_limit_of_zero_counts_as_one() {
    let dc = DownscaleCapturer::new(SyntheticCapturer::new(Resolution::new(7, 7), 30), 0);
    assert_eq!(dc.factor(), 7);
    let wide = DownscaleCapturer::new(SyntheticCapturer::new(Resolution::new(u32::MAX, 1), 30), 2);
    assert_eq!(wide.factor(), 2_147_483_648);
}

#[test]
fn a_live_source_needs_a_rate() {
    let fails = |kbps: u32, fps: u32| {
        let cap = SyntheticCapturer::new(Resolution::new(4, 4), 30);
        LiveFrameSource::new(cap, kbps, fps, StubEncoder::with_config).err()
    };
    assert_eq!(fails(1, 0), Some(SourceError::ZeroFps));
    assert_eq!(fails(0, 0), Some(SourceError::ZeroFps));
    assert_eq!(fails(0, 1), Some(SourceError::ZeroBitrate));
    assert_eq!(fails(1, 1), None);
    let empty = SyntheticCapturer::new(Resolution::new(0, 0), 30);
    assert!(matches!(
        LiveFrameSource::new(empty, 1, 1, StubEncoder::with_config).err(),
        Some(SourceError::EncoderInit(MediaError::Unsupported(_)))
    ));
}

#[test]
fn a_frozen_capturer_stalls_the_source() {
    let mut source = LiveFrameSource::new(Frozen, 1, 1, StubEncoder::with_config).unwrap();
    assert_eq!(source.next_frame().unwrap_err(), SourceError::CaptureStalled);
}

#[test]
fn skipped_frames_keep_the_keyframe_due() {
    let open = |skips: u32| {
        move |config: &EncoderConfig| {
            StubEncoder::with_config(config).map(|e| StubEncoder { skips, ..e })
        }
    };
    let cap = || SyntheticCapturer::new(Resolution::new(4, 4), 30);
    let mut source = LiveFrameSource::new(cap(), 1, 1, open(59)).unwrap();
    assert_eq!(source.next_frame().unwrap().0, FrameType::Idr);
    assert_eq!(source.next_frame().unwrap().0, FrameType::Predicted);
    source.request_keyframe();
    assert_eq!(source.next_frame().unwrap().0, FrameType::Idr);
    let mut stalled = LiveFrameSource::new(cap(), 1, 1, open(60)).unwrap();
    assert_eq!(stalled.next_frame().unwrap_err(), SourceError::EncoderStalled);
}

#[test]
fn a_live_source_gives_the_first_packet_it_gets() {
    let open = |skips: u32| {
        move |config: &EncoderConfig| {
            StubEncoder::with_config(config).map(|e| StubEncoder { skips, ..e })
        }
    };
    let cap = || SyntheticCapturer::new(Resolution::new(4, 4), 30);
    let mut ids = Vec::new();
    let mut probe = cap();
    for _ in 0..5 {
        let frame = probe.next_frame(Duration::from_millis(100)).unwrap().unwrap();
        ids.push(frame.frame_id.0 as u8);
    }
    let mut source = LiveFrameSource::new(cap(), 1, 1, open(3)).unwrap();
    assert_eq!(source.next_frame().unwrap().1, vec![0, 0, 0, 1, 0x65, ids[3]]);
    assert_eq!(source.next_frame().unwrap().1, vec![0, 0, 0, 1, 0x65, ids[4]]);
}

#[test]
fn a_capturer_is_asked_once_for_each_frame() {
    let cap = SyntheticCapturer::new(Resolution::new(9, 7), 30);
    let mut even = EvenDimCapturer::new(DownscaleCapturer::new(cap, 5));
    for id in 0..4 {
        let frame = even.next_frame(Duration::zero()).unwrap().unwrap();
        assert_eq!(frame.frame_id, FrameId(id));
        assert_eq!(frame.resolution, Resolution::new(4, 2));
    }
}

#[test]
fn retry_limits_are_exact() {
    assert!(matches!(after_capture(0, Ok(None)), CaptureStep::Again(1)));
    assert!(matches!(after_capture(MAX_CAPTURE_SKIPS - 2, Ok(None)), CaptureStep::Again(99)));
    assert!(matches!(
        after_capture(MAX_CAPTURE_SKIPS - 1, Ok(None)),
        CaptureStep::Fail(SourceError::CaptureStalled)
    ));
    assert!(matches!(after_capture(5, Ok(Some(bgra(2, 2)))), CaptureStep::Encode(_)));
    assert!(matches!(after_encode(MAX_ENCODER_SKIPS - 2, Ok(None)), EncodeStep::Again(59)));
    assert!(matches!(
        after_encode(MAX_ENCODER_SKIPS - 1, Ok(None)),
        EncodeStep::Fail(SourceError::EncoderStalled)
    ));
    assert!(matches!(
        after_encode(0, Err(MediaError::Encode("x".to_owned()))),
        EncodeStep::Fail(SourceError::Encode(_))
    ));
}

#[test]
fn source_errors_say_what_happened() {
    assert_eq!(SourceError::EmptyClip.to_text(), "baked H.264 fixture is empty");
    assert_eq!(SourceError::ZeroFps.to_text(), "fps must be > 0");
    assert_eq!(SourceError::ZeroBitrate.to_text(), "bitrate_kbps must be > 0");
    assert_eq!(
        SourceError::CaptureStalled.to_text(),
        "capture produced no frame after 100 retries (10000 ms); display may be frozen or capturer \
         misconfigured"
    );
    assert_eq!(
        SourceError::EncoderStalled.to_text(),
        "encoder skipped 60 consecutive frames; check --bitrate-kbps (too low?) or frame dimensions"
    );
    assert_eq!(
        SourceError::Capture(MediaError::Capture("gone".to_owned())).to_text(),
        "capture failed: capture: gone"
    );
    assert_eq!(SourceError::Other("other".to_owned()).to_text(), "other");
}
