//! Streaming video over a data channel: pacing, sequence numbers, input between frames, and an
//! orderly end.
//!
//! The caller waits, sends and receives; [`VideoStream`] and [`DualSession`] decide what comes
//! next. Whatever ends a session, held buttons and keys are released before it is over.
use bytes::Bytes;
use vstd::prelude::*;

use crate::buffer::from_vec;
use crate::frame_source::{SourceError, VideoFrameSource};
use crate::input::MAX_INPUT_PER_FRAME;
use crate::media::FrameType;
use crate::shp::{build_shp_video_fragments, VideoFragment, MAX_FRAME_ID};

verus! {

/// Seconds that a host waits for a second channel.
pub const INPUT_ACCEPT_TIMEOUT_SECS: u64 = 2;

/// A stream cannot be started.
#[derive(Debug, Clone, Copy, PartialEq, Eq, Structural)]
pub enum StreamError {
    /// No frames are asked for.
    ZeroFrames,
    /// The frame rate is zero.
    ZeroFps,
}

impl StreamError {
    /// What the error says.
    pub open spec fn text(self) -> Seq<char> {
        match self {
            StreamError::ZeroFrames => "--frames must be > 0 in video stream mode"@,
            StreamError::ZeroFps => "StreamMode::Video fps must be > 0"@,
        }
    }

    /// What the error says.
    pub fn to_text(&self) -> (r: String)
        ensures
            r@ == self.text(),
    {
        match self {
            StreamError::ZeroFrames => "--frames must be > 0 in video stream mode".to_owned(),
            StreamError::ZeroFps => "StreamMode::Video fps must be > 0".to_owned(),
        }
    }
}

/// Microseconds from one frame to the next, at least one.
pub open spec fn interval_us(fps: u32) -> u64 {
    if fps > 1_000_000 {
        1
    } else {
        (1_000_000int / fps as int) as u64
    }
}

/// Microseconds from one frame to the next.
pub fn frame_interval_us(fps: u32) -> (r: u64)
    requires
        fps > 0,
    ensures
        r == interval_us(fps),
        r >= 1,
{
    if fps > 1_000_000 {
        1
    } else {
        proof {
            vstd::arithmetic::div_mod::lemma_div_non_zero(1_000_000, fps as int);
        }
        1_000_000u64 / fps as u64
    }
}

/// How a stream is sent.
#[derive(Debug, Clone, Copy, PartialEq, Eq, Structural)]
pub struct StreamPlan {
    /// Frames to send.
    pub frames: usize,
    /// Microseconds from one frame to the next.
    pub per_us: u64,
    /// Bytes to a fragment.
    pub max_fragment_bytes: usize,
}

impl StreamPlan {
    /// A plan for `frames` frames at `fps` frames per second.
    pub fn new(frames: usize, fps: u32, max_fragment_bytes: usize) -> (r: Result<Self, StreamError>)
        ensures
            r == if frames == 0 {
                Err::<StreamPlan, StreamError>(StreamError::ZeroFrames)
            } else if fps == 0 {
                Err(StreamError::ZeroFps)
            } else {
                Ok(StreamPlan { frames, per_us: interval_us(fps), max_fragment_bytes })
            },
    {
        if frames == 0 {
            return Err(StreamError::ZeroFrames);
        }
        if fps == 0 {
            return Err(StreamError::ZeroFps);
        }
        Ok(StreamPlan { frames, per_us: frame_interval_us(fps), max_fragment_bytes })
    }
}

/// One frame, ready to go.
#[derive(Debug)]
pub enum Prepared {
    /// Send these fragments in order.
    Send(Vec<VideoFragment>),
    /// The frame takes too many fragments: drop it and make the next one a keyframe.
    Skip,
    /// There is no frame.
    Fail(SourceError),
}

/// `r` is the frame with index `index`, ready to go from position `sequence` on.
pub open spec fn prepares(
    plan: StreamPlan,
    index: usize,
    sequence: u16,
    produced: Result<(FrameType, Vec<u8>), SourceError>,
    r: Prepared,
) -> bool {
    match produced {
        Err(e) => r == Prepared::Fail(e),
        Ok((frame_type, payload)) => {
            let size = crate::shp::chunk_size(plan.max_fragment_bytes);
            if crate::shp::fragment_count(payload@.len(), size) > 255 {
                r is Skip
            } else {
                &&& r matches Prepared::Send(frags)
                &&& crate::shp::fragments_of(
                    frags@,
                    sequence,
                    (index % 0x100_0000) as u32,
                    (index * plan.per_us % 0x1_0000_0000_0000_0000) as u64,
                    frame_type,
                    payload@,
                    size,
                )
            }
        },
    }
}

/// Make a frame ready to go.
pub fn prepare_frame(
    plan: &StreamPlan,
    index: usize,
    sequence: u16,
    produced: Result<(FrameType, Vec<u8>), SourceError>,
) -> (r: Prepared)
    ensures
        prepares(*plan, index, sequence, produced, r),
{
    match produced {
        Err(e) => Prepared::Fail(e),
        Ok((frame_type, payload)) => {
            let frame_id: u32 = (index as u64 % (MAX_FRAME_ID as u64 + 1)) as u32;
            let ts_us: u64 = (index as u64).wrapping_mul(plan.per_us);
            assert(ts_us == (index * plan.per_us % 0x1_0000_0000_0000_0000));
            match build_shp_video_fragments(
                sequence,
                frame_id,
                ts_us,
                frame_type,
                payload.as_slice(),
                plan.max_fragment_bytes,
            ) {
                Ok(frags) => Prepared::Send(frags),
                Err(_) => Prepared::Skip,
            }
        },
    }
}

/// Ask a source once for a frame and make it ready to go. A source whose frame has to be dropped is
/// asked for a keyframe.
pub fn send_one_frame<S: VideoFrameSource + ?Sized>(
    plan: &StreamPlan,
    index: usize,
    sequence: u16,
    source: &mut S,
) -> (r: Prepared)
    ensures
        exists|produced: Result<(FrameType, Vec<u8>), SourceError>| #[trigger]
            old(source).yields(produced) && prepares(*plan, index, sequence, produced, r),
        r is Skip ==> final(source).armed(),
        final(source).asked() == crate::media::one_more(old(source).asked()),
{
    let produced = source.next_frame();
    let ghost answer = produced;
    let r = prepare_frame(plan, index, sequence, produced);
    match &r {
        Prepared::Skip => {
            source.request_keyframe();
        },
        _ => {},
    }
    assert(old(source).yields(answer) && prepares(*plan, index, sequence, answer, r));
    r
}

/// Where a stream stands between two events.
#[derive(Debug, Clone, Copy, PartialEq, Eq, Structural)]
pub enum Phase {
    /// Waiting for the time of the next frame.
    Pacing,
    /// Sending so many fragments of a frame.
    Sending(u16),
    /// Taking in input, after so many polls.
    Draining(usize),
    /// Releasing what is held.
    Releasing,
    /// Over.
    Over,
}

/// What happened since the last action.
#[derive(Debug)]
pub enum StreamEvent {
    /// The time of the next frame came, and this is the frame, ready to go.
    Frame(Prepared),
    /// All fragments were sent, or the peer closed the channel.
    Sent(bool),
    /// A message was taken in.
    Input,
    /// No more messages wait.
    Drained,
    /// The peer closed the channel, or receiving failed.
    Closed,
    /// Everything that was held is released.
    Released,
}

/// What to do next.
#[derive(Debug)]
pub enum StreamAction {
    /// Wait for the time of the next frame and make it ready.
    Pace,
    /// Send the fragments in order.
    Send(Vec<VideoFragment>),
    /// Look for a message without waiting.
    Poll,
    /// Close the input queue and wait until the injector has released everything.
    Release,
    /// The stream is over.
    Finish(Result<(), SourceError>),
    /// Nothing: the event does not belong to the phase.
    Ignore,
}

/// The state of a stream.
pub struct StreamView {
    /// How it is sent.
    pub plan: StreamPlan,
    /// Frames sent.
    pub sent: usize,
    /// Position of the next fragment.
    pub sequence: u16,
    /// Where it stands.
    pub phase: Phase,
    /// Why it ends, if it failed.
    pub error: Option<SourceError>,
}

impl StreamView {
    /// The same, in another phase.
    pub open spec fn at(self, phase: Phase) -> StreamView {
        StreamView { phase, ..self }
    }

    /// The stream goes on with the next frame, or ends when all are sent.
    pub open spec fn goes_on(self, after: StreamView, action: StreamAction) -> bool {
        if self.sent < self.plan.frames {
            after == self.at(Phase::Pacing) && action is Pace
        } else {
            after == self.at(Phase::Releasing) && action is Release
        }
    }

    /// After the event the state is `after`, and the action comes next.
    pub open spec fn steps(
        self,
        event: StreamEvent,
        after: StreamView,
        action: StreamAction,
    ) -> bool {
        match (self.phase, event) {
            (Phase::Pacing, StreamEvent::Frame(Prepared::Send(frags))) => {
                &&& after == self.at(Phase::Sending(frags@.len() as u16))
                &&& action == StreamAction::Send(frags)
            },
            (Phase::Pacing, StreamEvent::Frame(Prepared::Skip)) => after == self && action is Pace,
            (Phase::Pacing, StreamEvent::Frame(Prepared::Fail(e))) => {
                &&& after == (StreamView { error: Some(e), ..self.at(Phase::Releasing) })
                &&& action is Release
            },
            (Phase::Sending(n), StreamEvent::Sent(true)) => {
                &&& after == (StreamView {
                    sent: (self.sent + 1) as usize,
                    sequence: crate::shp::advanced(self.sequence, n as int),
                    ..self.at(Phase::Draining(0))
                })
                &&& action is Poll
            },
            (Phase::Sending(_), StreamEvent::Sent(false)) => {
                after == self.at(Phase::Releasing) && action is Release
            },
            (Phase::Draining(polls), StreamEvent::Input) => if polls + 1 < MAX_INPUT_PER_FRAME {
                after == self.at(Phase::Draining((polls + 1) as usize)) && action is Poll
            } else {
                self.goes_on(after, action)
            },
            (Phase::Draining(_), StreamEvent::Drained) => self.goes_on(after, action),
            (Phase::Draining(_), StreamEvent::Closed) => {
                after == self.at(Phase::Releasing) && action is Release
            },
            (Phase::Releasing, StreamEvent::Released) => {
                &&& after == (StreamView { error: None, ..self.at(Phase::Over) })
                &&& action matches StreamAction::Finish(r)
                &&& r == match self.error {
                    Some(e) => Err::<(), SourceError>(e),
                    None => Ok(()),
                }
            },
            _ => after == self && action is Ignore,
        }
    }
}

/// A video stream on one channel, with input taken in between frames.
pub struct VideoStream {
    plan: StreamPlan,
    sent: usize,
    sequence: u16,
    phase: Phase,
    error: Option<SourceError>,
}

impl View for VideoStream {
    type V = StreamView;

    closed spec fn view(&self) -> StreamView {
        StreamView {
            plan: self.plan,
            sent: self.sent,
            sequence: self.sequence,
            phase: self.phase,
            error: self.error,
        }
    }
}

impl VideoStream {
    #[verifier::type_invariant]
    spec fn wf(self) -> bool {
        &&& self.sent <= self.plan.frames
        &&& self.phase is Pacing || self.phase is Sending ==> self.sent < self.plan.frames
        &&& self.phase is Pacing || self.phase is Sending || self.phase is Draining
            ==> self.error is None
    }

    /// A stream that is about to send its first frame.
    pub fn new(frames: usize, fps: u32, max_fragment_bytes: usize) -> (r: Result<Self, StreamError>)
        ensures
            frames == 0 ==> r == Err::<Self, _>(StreamError::ZeroFrames),
            frames > 0 && fps == 0 ==> r == Err::<Self, _>(StreamError::ZeroFps),
            frames > 0 && fps > 0 ==> (r matches Ok(s) && s@ == (StreamView {
                plan: StreamPlan { frames, per_us: interval_us(fps), max_fragment_bytes },
                sent: 0,
                sequence: 0,
                phase: Phase::Pacing,
                error: None,
            })),
    {
        match StreamPlan::new(frames, fps, max_fragment_bytes) {
            Ok(plan) => Ok(
                VideoStream { plan, sent: 0, sequence: 0, phase: Phase::Pacing, error: None },
            ),
            Err(e) => Err(e),
        }
    }

    /// Microseconds from one frame to the next.
    pub fn per_us(&self) -> (r: u64)
        ensures
            r == self@.plan.per_us,
    {
        self.plan.per_us
    }

    /// Frames sent.
    pub fn sent(&self) -> (r: usize)
        ensures
            r == self@.sent,
    {
        self.sent
    }

    /// Ask a source once for the next frame and make it ready to go.
    pub fn frame<S: VideoFrameSource + ?Sized>(&self, source: &mut S) -> (r: Prepared)
        ensures
            exists|produced: Result<(FrameType, Vec<u8>), SourceError>| #[trigger]
                old(source).yields(produced) && prepares(
                    self@.plan,
                    self@.sent,
                    self@.sequence,
                    produced,
                    r,
                ),
            r is Skip ==> final(source).armed(),
            final(source).asked() == crate::media::one_more(old(source).asked()),
    {
        send_one_frame(&self.plan, self.sent, self.sequence, source)
    }

    fn go_on(&mut self) -> (action: StreamAction)
        requires
            old(self)@.error is None,
        ensures
            old(self)@.goes_on(final(self)@, action),
    {
        proof {
            use_type_invariant(&*self);
        }
        if self.sent < self.plan.frames {
            self.phase = Phase::Pacing;
            StreamAction::Pace
        } else {
            self.phase = Phase::Releasing;
            StreamAction::Release
        }
    }

    fn release(&mut self) -> (action: StreamAction)
        ensures
            final(self)@ == old(self)@.at(Phase::Releasing),
            action is Release,
    {
        proof {
            use_type_invariant(&*self);
        }
        self.phase = Phase::Releasing;
        StreamAction::Release
    }

    /// Take in an event and decide what comes next.
    pub fn step(&mut self, event: StreamEvent) -> (action: StreamAction)
        ensures
            old(self)@.steps(event, final(self)@, action),
    {
        proof {
            use_type_invariant(&*self);
        }
        match (self.phase, event) {
            (Phase::Pacing, StreamEvent::Frame(prepared)) => match prepared {
                Prepared::Send(frags) => {
                    self.phase = Phase::Sending(frags.len() as u16);
                    StreamAction::Send(frags)
                },
                Prepared::Skip => StreamAction::Pace,
                Prepared::Fail(e) => {
                    self.phase = Phase::Releasing;
                    self.error = Some(e);
                    StreamAction::Release
                },
            },
            (Phase::Sending(n), StreamEvent::Sent(ok)) => if ok {
                self.phase = Phase::Draining(0);
                self.sent = self.sent + 1;
                self.sequence = self.sequence.wrapping_add(n);
                StreamAction::Poll
            } else {
                self.release()
            },
            (Phase::Draining(polls), StreamEvent::Input) => if polls < MAX_INPUT_PER_FRAME - 1 {
                self.phase = Phase::Draining(polls + 1);
                StreamAction::Poll
            } else {
                self.go_on()
            },
            (Phase::Draining(_), StreamEvent::Drained) => self.go_on(),
            (Phase::Draining(_), StreamEvent::Closed) => self.release(),
            (Phase::Releasing, StreamEvent::Released) => {
                self.phase = Phase::Over;
                let mut error: Option<SourceError> = None;
                std::mem::swap(&mut self.error, &mut error);
                match error {
                    Some(e) => StreamAction::Finish(Err(e)),
                    None => StreamAction::Finish(Ok(())),
                }
            },
            _ => StreamAction::Ignore,
        }
    }
}

/// What a send loop does next.
#[derive(Debug)]
pub enum SendAction {
    /// Wait for the time of the next frame and make it ready.
    Pace,
    /// Send the fragments in order.
    Send(Vec<VideoFragment>),
    /// The loop is over.
    Finish(Result<(), SourceError>),
}

/// The state of a send loop.
pub struct SendView {
    /// How frames are sent.
    pub plan: StreamPlan,
    /// Frames sent.
    pub sent: usize,
    /// Position of the next fragment.
    pub sequence: u16,
    /// Fragments of the frame that is being sent.
    pub under_way: u16,
}

impl SendView {
    /// Given a frame that is ready to go, the loop is then in `after`, and the action comes next.
    pub open spec fn takes_frame(
        self,
        prepared: Prepared,
        after: SendView,
        action: SendAction,
    ) -> bool {
        &&& after == (SendView {
            under_way: match prepared {
                Prepared::Send(frags) => frags@.len() as u16,
                _ => self.under_way,
            },
            ..self
        })
        &&& action == match prepared {
            Prepared::Send(frags) => SendAction::Send(frags),
            Prepared::Skip => SendAction::Pace,
            Prepared::Fail(e) => SendAction::Finish(Err(e)),
        }
    }

    /// Once a frame was sent, or was not, the loop is in `after`, and the action comes next.
    pub open spec fn was_sent(self, ok: bool, after: SendView, action: SendAction) -> bool {
        &&& after == if ok {
            SendView {
                sent: if self.sent == usize::MAX {
                    usize::MAX
                } else {
                    (self.sent + 1) as usize
                },
                sequence: crate::shp::advanced(self.sequence, self.under_way as int),
                ..self
            }
        } else {
            self
        }
        &&& action == if ok && after.sent < self.plan.frames {
            SendAction::Pace
        } else {
            SendAction::Finish(Ok(()))
        }
    }
}

/// Sends the frames of a stream without looking after input.
pub struct VideoSendLoop {
    plan: StreamPlan,
    sent: usize,
    sequence: u16,
    under_way: u16,
}

impl View for VideoSendLoop {
    type V = SendView;

    closed spec fn view(&self) -> SendView {
        SendView {
            plan: self.plan,
            sent: self.sent,
            sequence: self.sequence,
            under_way: self.under_way,
        }
    }
}

impl VideoSendLoop {
    /// A loop that is about to send its first frame.
    pub fn new(plan: StreamPlan) -> (r: Self)
        ensures
            r@ == (SendView { plan, sent: 0, sequence: 0, under_way: 0 }),
    {
        VideoSendLoop { plan, sent: 0, sequence: 0, under_way: 0 }
    }

    /// Ask a source once for the next frame and make it ready to go.
    pub fn frame<S: VideoFrameSource + ?Sized>(&self, source: &mut S) -> (r: Prepared)
        ensures
            exists|produced: Result<(FrameType, Vec<u8>), SourceError>| #[trigger]
                old(source).yields(produced) && prepares(
                    self@.plan,
                    self@.sent,
                    self@.sequence,
                    produced,
                    r,
                ),
            r is Skip ==> final(source).armed(),
            final(source).asked() == crate::media::one_more(old(source).asked()),
    {
        send_one_frame(&self.plan, self.sent, self.sequence, source)
    }

    /// What to do with a frame that is ready to go.
    pub fn on_frame(&mut self, prepared: Prepared) -> (action: SendAction)
        ensures
            old(self)@.takes_frame(prepared, final(self)@, action),
    {
        match prepared {
            Prepared::Send(frags) => {
                self.under_way = frags.len() as u16;
                SendAction::Send(frags)
            },
            Prepared::Skip => SendAction::Pace,
            Prepared::Fail(e) => SendAction::Finish(Err(e)),
        }
    }

    /// What to do once a frame was sent, or the peer closed the channel.
    pub fn on_sent(&mut self, ok: bool) -> (action: SendAction)
        ensures
            old(self)@.was_sent(ok, final(self)@, action),
    {
        if !ok {
            return SendAction::Finish(Ok(()));
        }
        self.sent = self.sent.saturating_add(1);
        self.sequence = self.sequence.wrapping_add(self.under_way);
        if self.sent < self.plan.frames {
            SendAction::Pace
        } else {
            SendAction::Finish(Ok(()))
        }
    }
}

/// Where a session with a channel of its own for input stands.
#[derive(Debug, PartialEq, Eq)]
pub enum DualPhase {
    /// Video is sent and input is taken in, side by side.
    Racing,
    /// Video ended with this result, and input is being stopped.
    Stopping(Result<(), SourceError>),
    /// Both ended, and what is held is being released.
    Releasing(Result<(), SourceError>),
    /// Over.
    Over,
}

/// What happened since the last action.
#[derive(Debug)]
pub enum DualEvent {
    /// All frames are sent, the peer closed the video channel, or the source failed.
    VideoEnded(Result<(), SourceError>),
    /// The peer closed the input channel, receiving failed, or taking in input broke down.
    InputEnded,
    /// Input is stopped.
    InputStopped,
    /// Everything that was held is released.
    Released,
}

/// What to do next.
#[derive(Debug)]
pub enum DualAction {
    /// Stop taking in input, and wait until that is done.
    StopInput,
    /// Close the input queue and wait until the injector has released everything.
    Release,
    /// The session is over.
    Finish(Result<(), SourceError>),
    /// Nothing: the event does not belong to the phase.
    Ignore,
}

impl DualPhase {
    /// After the event the session is in `after`, and the action comes next.
    pub open spec fn steps(self, event: DualEvent, after: DualPhase, action: DualAction) -> bool {
        match (self, event) {
            (DualPhase::Racing, DualEvent::VideoEnded(r)) => {
                after == DualPhase::Stopping(r) && action is StopInput
            },
            (DualPhase::Racing, DualEvent::InputEnded) => {
                after == DualPhase::Releasing(Ok(())) && action is Release
            },
            (DualPhase::Stopping(r), DualEvent::InputStopped) => {
                after == DualPhase::Releasing(r) && action is Release
            },
            (DualPhase::Releasing(r), DualEvent::Released) => {
                after == DualPhase::Over && action == DualAction::Finish(r)
            },
            _ => after == self && action is Ignore,
        }
    }
}

/// A session that sends video on one channel and takes in input on another. Whichever ends first
/// ends the session.
pub struct DualSession {
    phase: DualPhase,
}

impl DualSession {
    /// Where the session stands.
    pub closed spec fn phase(self) -> DualPhase {
        self.phase
    }

    /// A session that has just begun.
    pub fn new() -> (r: Self)
        ensures
            r.phase() is Racing,
    {
        DualSession { phase: DualPhase::Racing }
    }

    /// Take in an event and decide what comes next.
    pub fn step(&mut self, event: DualEvent) -> (action: DualAction)
        ensures
            old(self).phase().steps(event, final(self).phase(), action),
    {
        let mut phase = DualPhase::Over;
        std::mem::swap(&mut self.phase, &mut phase);
        match (phase, event) {
            (DualPhase::Racing, DualEvent::VideoEnded(r)) => {
                self.phase = DualPhase::Stopping(r);
                DualAction::StopInput
            },
            (DualPhase::Racing, DualEvent::InputEnded) => {
                self.phase = DualPhase::Releasing(Ok(()));
                DualAction::Release
            },
            (DualPhase::Stopping(r), DualEvent::InputStopped) => {
                self.phase = DualPhase::Releasing(r);
                DualAction::Release
            },
            (DualPhase::Releasing(r), DualEvent::Released) => DualAction::Finish(r),
            (phase, _) => {
                self.phase = phase;
                DualAction::Ignore
            },
        }
    }
}

/// The frame that a host sends so that its peer can tell it from an echo.
pub open spec fn echo_frame() -> Seq<u8> {
    seq![83u8, 72, 80, 0, 0, 0, 0, 4, 69, 67, 72, 79]
}

/// The peer closed the channel before it sent a frame.
#[derive(Debug, Clone, Copy, PartialEq, Eq, Structural)]
pub struct NothingToEcho;

impl NothingToEcho {
    /// What the error says.
    pub fn to_text(&self) -> (r: String)
        ensures
            r@ == "DataChannel closed before receiving any frame"@,
    {
        "DataChannel closed before receiving any frame".to_owned()
    }
}

/// What a host that echoes sends back: the frame that it received, and one of its own.
pub fn run_data_channel(received: Option<Bytes>) -> (r: Result<(Bytes, Bytes), NothingToEcho>)
    ensures
        r is Ok <==> received is Some,
        r matches Ok((first, second)) ==> first == received->0 && crate::buffer::content(second)
            == echo_frame(),
{
    match received {
        Some(frame) => {
            let own: Vec<u8> = vec![83u8, 72, 80, 0, 0, 0, 0, 4, 69, 67, 72, 79];
            assert(own@ =~= echo_frame());
            Ok((frame, from_vec(own)))
        },
        None => Err(NothingToEcho),
    }
}

/// `states` are the states of a stream, one event after another.
pub open spec fn stream_run(
    states: Seq<StreamView>,
    events: Seq<StreamEvent>,
    actions: Seq<StreamAction>,
) -> bool {
    &&& states.len() == events.len() + 1
    &&& actions.len() == events.len()
    &&& states[0].phase is Pacing
    &&& states[0].error is None
    &&& states[0].sent == 0
    &&& states[0].sequence == 0
    &&& states[0].plan.frames > 0
    &&& forall|i: int|
        0 <= i < events.len() ==> states[i].steps(
            #[trigger] events[i],
            states[i + 1],
            actions[i],
        )
}

/// Whatever ends a stream, everything that is held is released before it is over.
pub proof fn law_stream_releases_before_it_ends(
    states: Seq<StreamView>,
    events: Seq<StreamEvent>,
    actions: Seq<StreamAction>,
    n: int,
)
    requires
        stream_run(states, events, actions),
        0 <= n < actions.len(),
        actions[n] is Finish,
    ensures
        events[n] is Released,
        exists|i: int| 0 <= i < n && #[trigger] actions[i] is Release,
{
    assert(states[n].steps(events[n], states[n + 1], actions[n]));
    lemma_releasing_was_asked_for(states, events, actions, n);
}

/// A stream that is releasing was told to.
proof fn lemma_releasing_was_asked_for(
    states: Seq<StreamView>,
    events: Seq<StreamEvent>,
    actions: Seq<StreamAction>,
    n: int,
)
    requires
        stream_run(states, events, actions),
        0 <= n < states.len(),
        states[n].phase is Releasing,
    ensures
        exists|i: int| 0 <= i < n && #[trigger] actions[i] is Release,
    decreases n,
{
    assert(n > 0);
    assert(states[n - 1].steps(events[n - 1], states[n], actions[n - 1]));
    if actions[n - 1] is Release {
    } else {
        lemma_releasing_was_asked_for(states, events, actions, n - 1);
        let i = choose|i: int| 0 <= i < n - 1 && #[trigger] actions[i] is Release;
        assert(0 <= i < n && actions[i] is Release);
    }
}

/// At every point of a stream, no more frames are sent than asked for, and input is polled for no
/// more often between two frames than allowed. Unless the peer closed the channel or the source
/// failed, a stream that ends has sent all frames.
pub proof fn law_stream_sends_all_frames(
    states: Seq<StreamView>,
    events: Seq<StreamEvent>,
    actions: Seq<StreamAction>,
    n: int,
)
    requires
        stream_run(states, events, actions),
        0 <= n < states.len(),
    ensures
        states[n].plan == states[0].plan,
        states[n].sent <= states[n].plan.frames,
        states[n].phase matches Phase::Draining(polls) ==> polls < MAX_INPUT_PER_FRAME,
        states[n].phase is Pacing || states[n].phase is Sending ==> states[n].sent
            < states[n].plan.frames,
        states[n].phase is Releasing && states[n].error is None && (forall|i: int|
            0 <= i < n ==> !(#[trigger] events[i] is Closed) && events[i] != StreamEvent::Sent(
                false,
            )) ==> states[n].sent == states[n].plan.frames,
    decreases n,
{
    if n > 0 {
        law_stream_sends_all_frames(states, events, actions, n - 1);
        assert(states[n - 1].steps(events[n - 1], states[n], actions[n - 1]));
    }
}

/// Fragments that were sent in the first `n` steps of a run.
pub open spec fn fragments_sent(states: Seq<StreamView>, events: Seq<StreamEvent>, n: int) -> int
    decreases n,
{
    if n <= 0 {
        0
    } else {
        fragments_sent(states, events, n - 1) + match (states[n - 1].phase, events[n - 1]) {
            (Phase::Sending(k), StreamEvent::Sent(true)) => k as int,
            _ => 0,
        }
    }
}

/// Sequence numbers have no gaps: the next one is the number of fragments sent so far, modulo the
/// width of the field.
pub proof fn law_sequence_counts_fragments(
    states: Seq<StreamView>,
    events: Seq<StreamEvent>,
    actions: Seq<StreamAction>,
    n: int,
)
    requires
        stream_run(states, events, actions),
        0 <= n < states.len(),
    ensures
        states[n].sequence == fragments_sent(states, events, n) % 0x1_0000,
    decreases n,
{
    if n > 0 {
        law_sequence_counts_fragments(states, events, actions, n - 1);
        assert(states[n - 1].steps(events[n - 1], states[n], actions[n - 1]));
        let before = fragments_sent(states, events, n - 1);
        match (states[n - 1].phase, events[n - 1]) {
            (Phase::Sending(k), StreamEvent::Sent(true)) => {
                vstd::arithmetic::div_mod::lemma_add_mod_noop(before, k as int, 0x1_0000);
                vstd::arithmetic::div_mod::lemma_add_mod_noop(
                    states[n - 1].sequence as int,
                    k as int,
                    0x1_0000,
                );
            },
            _ => {},
        }
    }
}

/// `phases` are the phases of a session, one event after another.
pub open spec fn dual_run(
    phases: Seq<DualPhase>,
    events: Seq<DualEvent>,
    actions: Seq<DualAction>,
) -> bool {
    &&& phases.len() == events.len() + 1
    &&& actions.len() == events.len()
    &&& phases[0] is Racing
    &&& forall|i: int|
        0 <= i < events.len() ==> phases[i].steps(
            #[trigger] events[i],
            phases[i + 1],
            actions[i],
        )
}

/// Whatever ends a session, everything that is held is released before it is over.
pub proof fn law_session_releases_before_it_ends(
    phases: Seq<DualPhase>,
    events: Seq<DualEvent>,
    actions: Seq<DualAction>,
    n: int,
)
    requires
        dual_run(phases, events, actions),
        0 <= n < actions.len(),
        actions[n] is Finish,
    ensures
        events[n] is Released,
        exists|i: int| 0 <= i < n && #[trigger] actions[i] is Release,
{
    assert(phases[n].steps(events[n], phases[n + 1], actions[n]));
    lemma_dual_releasing_was_asked_for(phases, events, actions, n);
}

/// A session that is releasing was told to.
proof fn lemma_dual_releasing_was_asked_for(
    phases: Seq<DualPhase>,
    events: Seq<DualEvent>,
    actions: Seq<DualAction>,
    n: int,
)
    requires
        dual_run(phases, events, actions),
        0 <= n < phases.len(),
        phases[n] is Releasing,
    ensures
        exists|i: int| 0 <= i < n && #[trigger] actions[i] is Release,
    decreases n,
{
    assert(n > 0);
    assert(phases[n - 1].steps(events[n - 1], phases[n], actions[n - 1]));
    if actions[n - 1] is Release {
    } else {
        lemma_dual_releasing_was_asked_for(phases, events, actions, n - 1);
        let i = choose|i: int| 0 <= i < n - 1 && #[trigger] actions[i] is Release;
        assert(0 <= i < n && actions[i] is Release);
    }
}

/// Input is stopped only after video ended first, so input that ended by itself is never stopped
/// again; and the session's result is that of the video, or success when input ended first.
pub proof fn law_input_is_stopped_once(
    before: DualPhase,
    event: DualEvent,
    after: DualPhase,
    action: DualAction,
)
    requires
        before.steps(event, after, action),
    ensures
        action is StopInput <==> before is Racing && event is VideoEnded,
        before is Racing && event is InputEnded ==> after == DualPhase::Releasing(Ok(())),
{
}

/// The frames come as fast as the rate says: the gap between two, in whole microseconds, is as long
/// as it can be without the frames of a second taking longer than a second, and at least one.
pub proof fn law_frames_keep_the_rate(fps: u32)
    requires
        fps > 0,
    ensures
        interval_us(fps) >= 1,
        fps <= 1_000_000 ==> interval_us(fps) * fps <= 1_000_000 < (interval_us(fps) + 1) * fps,
        fps > 1_000_000 ==> interval_us(fps) == 1,
{
    if fps <= 1_000_000 {
        let n = 1_000_000int / fps as int;
        vstd::arithmetic::div_mod::lemma_fundamental_div_mod(1_000_000, fps as int);
        vstd::arithmetic::div_mod::lemma_mod_bound(1_000_000, fps as int);
        assert(n * fps == fps * n) by (nonlinear_arith);
        assert((n + 1) * fps == fps * n + fps) by (nonlinear_arith);
        assert(1 <= n <= 1_000_000) by (nonlinear_arith)
            requires
                1_000_000 < (n + 1) * fps,
                n * fps <= 1_000_000,
                1 <= fps <= 1_000_000,
        ;
    }
}

/// A frame is sent whole or not at all. It is dropped exactly when it takes more than 255 fragments
/// of the planned size; a source that fails ends it; and else the fragments that go out make up the
/// payload, with the frame's index as its identity, modulo 2 to the 24, and the time that the plan
/// gives it.
pub proof fn law_frames_are_sent_whole(
    plan: StreamPlan,
    index: usize,
    sequence: u16,
    produced: Result<(FrameType, Vec<u8>), SourceError>,
    r: Prepared,
    i: int,
)
    requires
        prepares(plan, index, sequence, produced, r),
    ensures
        produced matches Err(e) ==> r == Prepared::Fail(e),
        produced is Ok ==> !(r is Fail),
        produced matches Ok(p) ==> {
            let size = if plan.max_fragment_bytes == 0 {
                1int
            } else if plan.max_fragment_bytes > 65535 {
                65535int
            } else {
                plan.max_fragment_bytes as int
            };
            r is Skip <==> p.1@.len() > 255 * size
        },
        produced matches Ok(p) ==> (r matches Prepared::Send(frags) ==> {
            &&& 1 <= frags@.len() <= 255
            &&& crate::shp::reassembled(frags@) == p.1@
            &&& 0 <= i < frags@.len() ==> {
                &&& frags@[i].common.sequence == (sequence + i) % 0x1_0000
                &&& frags@[i].video.frame_id.0 == index % 0x100_0000
                &&& frags@[i].video.frame_type == p.0
                &&& frags@[i].common.timestamp_us.0 == index * plan.per_us
                    % 0x1_0000_0000_0000_0000
                &&& frags@[i].video.marker <==> i + 1 == frags@.len()
            }
        }),
{
    match produced {
        Ok((frame_type, payload)) => {
            let size = crate::shp::chunk_size(plan.max_fragment_bytes);
            crate::shp::law_fragments_are_few(payload@.len(), size);
            let n = crate::shp::fragment_count(payload@.len(), size) as int;
            let len = payload@.len() as int;
            if len > 0 {
                if n > 255 {
                    assert((n - 1) * size >= 255 * size) by (nonlinear_arith)
                        requires
                            n - 1 >= 255,
                            size >= 0,
                    ;
                } else {
                    assert(n * size <= 255 * size) by (nonlinear_arith)
                        requires
                            n <= 255,
                            size >= 0,
                    ;
                }
            } else {
                assert(255 * size >= 0) by (nonlinear_arith)
                    requires
                        size >= 0,
                ;
            }
            if let Prepared::Send(frags) = r {
                let id = (index % 0x100_0000) as u32;
                let ts = (index * plan.per_us % 0x1_0000_0000_0000_0000) as u64;
                assert(index * plan.per_us >= 0) by (nonlinear_arith)
                    requires
                        index >= 0,
                        plan.per_us >= 0,
                ;
                if len > 0 {
                    assert(n >= 1) by (nonlinear_arith)
                        requires
                            len <= n * size,
                            len > 0,
                            size > 0,
                    ;
                }
                crate::shp::law_fragments_reassemble(
                    frags@,
                    sequence,
                    id,
                    ts,
                    frame_type,
                    payload@,
                    plan.max_fragment_bytes,
                );
                if 0 <= i < frags@.len() {
                    crate::shp::law_fragments_carry_the_frame(
                        frags@,
                        sequence,
                        id,
                        ts,
                        frame_type,
                        payload@,
                        plan.max_fragment_bytes,
                        i,
                    );
                    crate::shp::law_marker_is_on_the_last(
                        frags@,
                        sequence,
                        id,
                        ts,
                        frame_type,
                        payload@,
                        plan.max_fragment_bytes,
                        i,
                    );
                }
            }
        },
        Err(_) => {},
    }
}

/// When a stream does what. It sends a frame when one is ready, polls for input once a frame was
/// sent and after each of the first 255 messages, and goes on to the next frame when no message is
/// left or the 256th was taken in, or when a frame was dropped. It releases when all frames are
/// sent, the peer closed the channel or the source failed, and ends once that is done. An event out
/// of turn does nothing.
pub proof fn law_what_a_stream_does_when(
    before: StreamView,
    event: StreamEvent,
    after: StreamView,
    action: StreamAction,
)
    requires
        before.steps(event, after, action),
    ensures
        ({
            let sending = before.phase is Sending;
            let done_polling = before.phase matches Phase::Draining(polls) && (event is Drained
                || event is Input && polls >= 255);
            &&& action is Send <==> before.phase is Pacing && event is Frame && event->Frame_0
                is Send
            &&& action matches StreamAction::Send(frags) ==> event->Frame_0->Send_0 == frags
                && after.phase == Phase::Sending(frags@.len() as u16)
            &&& action is Poll <==> sending && event == StreamEvent::Sent(true) || (before.phase
                matches Phase::Draining(polls) && event is Input && polls < 255)
            &&& action is Pace <==> before.phase is Pacing && event is Frame && event->Frame_0
                is Skip || done_polling && before.sent < before.plan.frames
            &&& action is Release <==> before.phase is Pacing && event is Frame && event->Frame_0
                is Fail || sending && event == StreamEvent::Sent(false) || before.phase is Draining
                && event is Closed || done_polling && before.sent >= before.plan.frames
            &&& action is Finish <==> before.phase is Releasing && event is Released
            &&& action is Ignore ==> after == before
        }),
{
}

/// What a stream remembers. A frame counts once all of its fragments are sent, and their number is
/// added to the position of the next one. The plan stays. A failure of the source is what the
/// stream ends with; without one it ends well.
pub proof fn law_what_a_stream_remembers(
    before: StreamView,
    event: StreamEvent,
    after: StreamView,
    action: StreamAction,
)
    requires
        before.steps(event, after, action),
        before.sent < usize::MAX,
    ensures
        after.plan == before.plan,
        (before.phase matches Phase::Sending(n) && event == StreamEvent::Sent(true)) ==> after.sent
            == before.sent + 1 && after.sequence == (before.sequence + before.phase->Sending_0)
            % 0x1_0000,
        !(before.phase is Sending && event == StreamEvent::Sent(true)) ==> after.sent == before.sent
            && after.sequence == before.sequence,
        before.phase is Pacing && event is Frame && event->Frame_0 is Fail ==> after.error == Some(
            event->Frame_0->Fail_0,
        ),
        action matches StreamAction::Finish(r) ==> (match before.error {
            Some(e) => r == Err::<(), SourceError>(e),
            None => r == Ok::<(), SourceError>(()),
        }),
        action is Poll ==> after.phase == Phase::Draining(
            match before.phase {
                Phase::Draining(polls) => (polls + 1) as usize,
                _ => 0,
            },
        ),
        action is Pace ==> after.phase is Pacing,
        action is Release ==> after.phase is Releasing,
        action is Finish ==> after.phase is Over,
{
}

/// A send loop sends every frame that is ready, drops what is too large, and ends when the source
/// fails, the peer is gone, or all frames are sent. Only what was sent counts.
pub proof fn law_what_a_send_loop_does(
    before: SendView,
    prepared: Prepared,
    ready: SendView,
    first: SendAction,
    ok: bool,
    after: SendView,
    second: SendAction,
)
    requires
        before.takes_frame(prepared, ready, first),
        ready.was_sent(ok, after, second),
    ensures
        prepared matches Prepared::Send(frags) ==> first == SendAction::Send(frags)
            && ready.under_way == frags@.len() as u16,
        prepared is Skip ==> first is Pace && ready == before,
        prepared matches Prepared::Fail(e) ==> first == SendAction::Finish(Err(e)) && ready
            == before,
        ready.sent == before.sent && ready.sequence == before.sequence,
        after.plan == before.plan,
        !ok ==> second == SendAction::Finish(Ok(())) && after.sent == before.sent && after.sequence
            == before.sequence,
        ok ==> after.sequence == (before.sequence + ready.under_way) % 0x1_0000,
        ok && before.sent < usize::MAX ==> after.sent == before.sent + 1,
        ok && before.sent == usize::MAX ==> after.sent == usize::MAX,
        ok && before.sent + 1 < before.plan.frames ==> second is Pace,
        ok && before.sent + 1 >= before.plan.frames ==> second == SendAction::Finish(Ok(())),
{
}

/// When a session with two channels does what: input is stopped when the video ends first, all is
/// released when input ended or is stopped, and the session ends with the result of the video, or
/// well when input ended first, once all is released.
pub proof fn law_what_a_session_does_when(
    before: DualPhase,
    event: DualEvent,
    after: DualPhase,
    action: DualAction,
)
    requires
        before.steps(event, after, action),
    ensures
        action is Release <==> before is Racing && event is InputEnded || before is Stopping
            && event is InputStopped,
        action is Finish <==> before is Releasing && event is Released,
        action is StopInput ==> after == DualPhase::Stopping(event->VideoEnded_0),
        before is Stopping && event is InputStopped ==> after == DualPhase::Releasing(
            before->Stopping_0,
        ),
        action is Finish ==> after is Over && action->Finish_0 == before->Releasing_0,
        action is Ignore ==> after == before,
{
}

/// The host's own frame is the letters SHP, four zeros, the length four, and the letters ECHO.
pub proof fn law_own_frame()
    ensures
        echo_frame().len() == 12,
        echo_frame().take(3) == seq![0x53u8, 0x48, 0x50],
        echo_frame().subrange(3, 8) == seq![0u8, 0, 0, 0, 4],
        echo_frame().skip(8) == seq![0x45u8, 0x43, 0x48, 0x4F],
{
}

} // verus!
