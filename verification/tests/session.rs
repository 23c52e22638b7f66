use bytes::Bytes;
use streamhaul::channel::ChannelId;
use streamhaul::channels::classify_channels;
use streamhaul::frame_source::{SourceError, VideoFrameSource};
use streamhaul::media::FrameType;
use streamhaul::stream::{
    frame_interval_us, prepare_frame, run_data_channel, send_one_frame, DualAction, DualEvent,
    DualSession, Prepared, SendAction, StreamAction, StreamError, StreamEvent, StreamPlan,
    VideoSendLoop, VideoStream,
};

// ── Channels ────────────────────────────────────────────────────────────────

#[test]
fn classify_routes_by_spec_order_independent() {
    // video then input
    let (v, i) =
        classify_channels(vec![(ChannelId::Video, "a"), (ChannelId::Input, "b")]).unwrap();
    assert_eq!(v, (ChannelId::Video, "a"));
    assert_eq!(i.unwrap(), (ChannelId::Input, "b"));
    // input then video (reversed open order) → same routing
    let (v, i) =
        classify_channels(vec![(ChannelId::Input, "b"), (ChannelId::Video, "a")]).unwrap();
    assert_eq!(v, (ChannelId::Video, "a"));
    assert_eq!(i.unwrap(), (ChannelId::Input, "b"));
}

#[test]
fn classify_legacy_single_control_is_video_no_input() {
    // A browser that opens one "shp" channel, which parses to Control → routed as video, no input
    // channel.
    let (v, i) = classify_channels(vec![(ChannelId::Control, ())]).unwrap();
    assert_eq!(v.0, ChannelId::Control);
    assert!(i.is_none());
}

#[test]
fn classify_no_video_errors() {
    // Only an input channel and nothing video-class → no usable video → error.
    let refused = classify_channels(vec![(ChannelId::Input, ())]).unwrap_err();
    assert_eq!(refused.to_text(), "peer opened no usable video DataChannel");
    assert!(classify_channels(Vec::<(ChannelId, ())>::new()).is_err());
}

#[test]
fn classify_duplicate_input_keeps_one_no_panic() {
    // A hostile peer opening two Input channels must not panic; the last wins.
    let (v, i) = classify_channels(vec![
        (ChannelId::Video, 0),
        (ChannelId::Input, 1),
        (ChannelId::Input, 2),
    ])
    .unwrap();
    assert_eq!(v.0, ChannelId::Video);
    assert_eq!(i.unwrap(), (ChannelId::Input, 2));
}

#[test]
fn the_first_channel_that_is_not_for_input_carries_video() {
    let (v, i) = classify_channels(vec![
        (ChannelId::Input, 0),
        (ChannelId::Audio, 1),
        (ChannelId::Video, 2),
    ])
    .unwrap();
    assert_eq!(v, (ChannelId::Audio, 1));
    assert_eq!(i, Some((ChannelId::Input, 0)));
}

// ── Sessions with two channels ──────────────────────────────────────────────

/// A `VideoFrameSource` yielding a tiny single-fragment IDR each call.
struct TestFrameSource;

impl VideoFrameSource for TestFrameSource {
    fn yields(&self, r: Result<(FrameType, Vec<u8>), SourceError>) -> bool {
        r.is_ok()
    }

    fn armed(&self) -> bool {
        true
    }

    fn asked(&self) -> u64 {
        0
    }

    fn next_frame(&mut self) -> Result<(FrameType, Vec<u8>), SourceError> {
        Ok((FrameType::Idr, vec![0u8; 8]))
    }

    fn request_keyframe(&mut self) {}
}

/// A `VideoFrameSource` that always errors.
struct FailingFrameSource;

impl VideoFrameSource for FailingFrameSource {
    fn yields(&self, r: Result<(FrameType, Vec<u8>), SourceError>) -> bool {
        r.is_err()
    }

    fn armed(&self) -> bool {
        true
    }

    fn asked(&self) -> u64 {
        0
    }

    fn next_frame(&mut self) -> Result<(FrameType, Vec<u8>), SourceError> {
        Err(SourceError::Other("synthetic frame-source failure".to_owned()))
    }

    fn request_keyframe(&mut self) {}
}

/// A peer that takes part in a session: what it sends on the input channel before it closes it, if
/// it does, and what the host did.
#[derive(Default)]
struct Peer {
    inputs: usize,
    input_closes: bool,
    injected: usize,
    released: bool,
    sent: usize,
}

/// Run a session: one input message is taken in for every frame that is sent.
fn run_video_dual<S: VideoFrameSource>(
    peer: &mut Peer,
    frames: usize,
    source: &mut S,
) -> Result<(), SourceError> {
    let plan = StreamPlan::new(frames, 1_000, 64_000).unwrap();
    let mut video = VideoSendLoop::new(plan);
    let mut session = DualSession::new();
    let mut left = peer.inputs;
    let mut action = SendAction::Pace;
    let first = loop {
        if left > 0 {
            left -= 1;
            peer.injected += 1;
        } else if peer.input_closes {
            break DualEvent::InputEnded;
        }
        action = match action {
            SendAction::Pace => {
                let prepared = video.frame(source);
                video.on_frame(prepared)
            }
            SendAction::Send(fragments) => {
                peer.sent += fragments.len();
                video.on_sent(true)
            }
            SendAction::Finish(result) => break DualEvent::VideoEnded(result),
        };
    };
    let mut next = session.step(first);
    loop {
        next = match next {
            DualAction::StopInput => session.step(DualEvent::InputStopped),
            DualAction::Release => {
                peer.released = true;
                session.step(DualEvent::Released)
            }
            DualAction::Finish(result) => return result,
            DualAction::Ignore => panic!("event out of phase"),
        };
    }
}

#[test]
fn dual_releases_input_when_input_channel_closes() {
    let mut peer = Peer { inputs: 2, input_closes: true, ..Peer::default() };
    let result = run_video_dual(&mut peer, 1_000_000, &mut TestFrameSource);

    assert!(result.is_ok(), "input-close is a normal end of stream");
    assert!(
        peer.released,
        "release_all MUST fire when the input channel closes mid-session"
    );
    assert_eq!(
        peer.injected, 2,
        "both input events must be injected before the session ends"
    );
}

#[test]
fn dual_releases_input_when_video_completes() {
    let mut peer = Peer::default();
    let result = run_video_dual(&mut peer, 3, &mut TestFrameSource);

    assert!(result.is_ok());
    assert!(
        peer.released,
        "release_all MUST fire when the video stream completes (input task aborted)"
    );
    assert_eq!(peer.sent, 3, "all 3 frames must be sent");
}

#[test]
fn dual_releases_input_when_video_source_errors() {
    let mut peer = Peer::default();
    let result = run_video_dual(&mut peer, 5, &mut FailingFrameSource);
    assert!(result.is_err(), "a source error is an abnormal end → Err");
    assert!(
        peer.released,
        "release_all MUST fire on a video-source error (abnormal exit)"
    );
}

#[test]
fn events_out_of_phase_change_nothing() {
    let mut session = DualSession::new();
    assert!(matches!(session.step(DualEvent::Released), DualAction::Ignore));
    assert!(matches!(session.step(DualEvent::InputStopped), DualAction::Ignore));
    assert!(matches!(session.step(DualEvent::InputEnded), DualAction::Release));
    assert!(matches!(session.step(DualEvent::InputEnded), DualAction::Ignore));
    assert!(matches!(session.step(DualEvent::Released), DualAction::Finish(Ok(()))));
    assert!(matches!(session.step(DualEvent::Released), DualAction::Ignore));
}

// ── Streams on one channel ──────────────────────────────────────────────────

/// A source whose frames are as long as it is told, and which counts what it is asked for.
struct Sized {
    len: usize,
    keyframes: usize,
    requests: u64,
}

impl Sized {
    fn new(len: usize) -> Self {
        Sized { len, keyframes: 0, requests: 0 }
    }
}

impl VideoFrameSource for Sized {
    fn yields(&self, r: Result<(FrameType, Vec<u8>), SourceError>) -> bool {
        r.is_ok()
    }

    fn armed(&self) -> bool {
        self.keyframes > 0
    }

    fn asked(&self) -> u64 {
        self.requests
    }

    fn next_frame(&mut self) -> Result<(FrameType, Vec<u8>), SourceError> {
        self.requests = self.requests.wrapping_add(1);
        Ok((FrameType::Predicted, vec![7; self.len]))
    }

    fn request_keyframe(&mut self) {
        self.keyframes += 1;
    }
}

#[test]
fn plans_need_frames_and_a_rate() {
    assert_eq!(StreamPlan::new(0, 0, 1).unwrap_err(), StreamError::ZeroFrames);
    assert_eq!(StreamPlan::new(1, 0, 1).unwrap_err(), StreamError::ZeroFps);
    assert_eq!(
        StreamError::ZeroFrames.to_text(),
        "--frames must be > 0 in video stream mode"
    );
    assert_eq!(StreamError::ZeroFps.to_text(), "StreamMode::Video fps must be > 0");
    assert_eq!(StreamPlan::new(9, 30, 5).unwrap().per_us, 33_333);
    assert_eq!(frame_interval_us(1), 1_000_000);
    assert_eq!(frame_interval_us(2_000_000), 1);
}

#[test]
fn a_stream_sends_its_frames_and_counts_fragments() {
    let mut stream = VideoStream::new(3, 1_000, 1_024).unwrap();
    let mut source = Sized::new(3_000);
    assert_eq!(stream.per_us(), 1_000);
    let mut sequence = 0u16;
    for n in 0..3usize {
        let prepared = stream.frame(&mut source);
        let StreamAction::Send(fragments) = stream.step(StreamEvent::Frame(prepared)) else {
            panic!("nothing to send");
        };
        assert_eq!(fragments.len(), 3);
        for f in &fragments {
            assert_eq!(f.common.sequence, sequence);
            assert_eq!(f.common.timestamp_us.0, n as u64 * 1_000);
            assert_eq!(f.video.frame_id.0, n as u64);
            sequence += 1;
        }
        assert!(matches!(stream.step(StreamEvent::Sent(true)), StreamAction::Poll));
        assert_eq!(stream.sent(), n + 1);
        assert!(matches!(stream.step(StreamEvent::Input), StreamAction::Poll));
        let next = stream.step(StreamEvent::Drained);
        if n < 2 {
            assert!(matches!(next, StreamAction::Pace));
        } else {
            assert!(matches!(next, StreamAction::Release));
        }
    }
    assert!(matches!(stream.step(StreamEvent::Released), StreamAction::Finish(Ok(()))));
    assert!(matches!(stream.step(StreamEvent::Released), StreamAction::Ignore));
}

#[test]
fn input_cannot_starve_the_video() {
    let mut stream = VideoStream::new(2, 30, 65_535).unwrap();
    let prepared = stream.frame(&mut TestFrameSource);
    stream.step(StreamEvent::Frame(prepared));
    stream.step(StreamEvent::Sent(true));
    for _ in 0..255 {
        assert!(matches!(stream.step(StreamEvent::Input), StreamAction::Poll));
    }
    assert!(matches!(stream.step(StreamEvent::Input), StreamAction::Pace));
}

#[test]
fn a_stream_releases_before_it_ends_whatever_ends_it() {
    for event in [
        StreamEvent::Frame(Prepared::Fail(SourceError::EmptyClip)),
        StreamEvent::Sent(false),
        StreamEvent::Closed,
    ] {
        let mut stream = VideoStream::new(5, 30, 65_535).unwrap();
        if !matches!(event, StreamEvent::Frame(_)) {
            let prepared = stream.frame(&mut TestFrameSource);
            stream.step(StreamEvent::Frame(prepared));
        }
        if matches!(event, StreamEvent::Closed) {
            stream.step(StreamEvent::Sent(true));
        }
        let failed = matches!(event, StreamEvent::Frame(_));
        assert!(matches!(stream.step(event), StreamAction::Release));
        let StreamAction::Finish(result) = stream.step(StreamEvent::Released) else {
            panic!("not over");
        };
        assert_eq!(result.is_err(), failed);
    }
}

#[test]
fn an_oversize_frame_is_dropped_and_a_keyframe_asked_for() {
    let plan = StreamPlan::new(4, 30, 1_024).unwrap();
    let mut fits = Sized::new(255 * 1_024);
    assert!(matches!(send_one_frame(&plan, 0, 0, &mut fits), Prepared::Send(f) if f.len() == 255));
    assert_eq!(fits.keyframes, 0);
    let mut source = Sized::new(255 * 1_024 + 1);
    let mut stream = VideoStream::new(4, 30, 1_024).unwrap();
    let prepared = stream.frame(&mut source);
    assert!(matches!(prepared, Prepared::Skip));
    assert_eq!(source.keyframes, 1);
    assert!(matches!(stream.step(StreamEvent::Frame(prepared)), StreamAction::Pace));
    assert_eq!(stream.sent(), 0);
}

#[test]
fn a_source_is_asked_once_for_each_frame() {
    let plan = StreamPlan::new(4, 30, 1_024).unwrap();
    for len in [1, 255 * 1_024 + 1] {
        let mut source = Sized::new(len);
        send_one_frame(&plan, 0, 0, &mut source);
        assert_eq!(source.asked(), 1);
        VideoStream::new(4, 30, 1_024).unwrap().frame(&mut source);
        assert_eq!(source.asked(), 2);
        VideoSendLoop::new(plan).frame(&mut source);
        assert_eq!(source.asked(), 3);
    }
}

#[test]
fn frame_identities_wrap() {
    let plan = StreamPlan::new(usize::MAX, 1_000_000, 1_024).unwrap();
    let produced = Ok((FrameType::Idr, vec![1]));
    let Prepared::Send(f) = prepare_frame(&plan, 0x100_0002, 65_535, produced) else {
        panic!("not sent");
    };
    assert_eq!(f[0].video.frame_id.0, 2);
    assert_eq!(f[0].common.sequence, 65_535);
    assert_eq!(f[0].common.timestamp_us.0, 0x100_0002);
}

#[test]
fn an_echo_is_followed_by_a_frame_of_the_hosts_own() {
    let (first, second) = run_data_channel(Some(Bytes::from_static(b"ping"))).unwrap();
    assert_eq!(&first[..], b"ping");
    assert_eq!(&second[..], b"SHP\x00\x00\x00\x00\x04ECHO");
    assert_eq!(
        run_data_channel(None).unwrap_err().to_text(),
        "DataChannel closed before receiving any frame"
    );
}
