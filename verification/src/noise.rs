//! The host's side of the handshake that runs over signaling.
//!
//! The browser makes itself known, the host advertises its static key, three handshake messages
//! pass, and the outcome carries the fingerprint that the browser committed to. The caller does
//! the waiting, the sending and the handshake's own computing; [`NoiseResponder`] decides what
//! comes next.
use rand_core::OsRng;
use vstd::prelude::*;
use x25519_dalek::{PublicKey, StaticSecret};

use crate::session_id::SessionId;
use crate::signaling::{
    recv_noise_hello, recv_noise_msg, send_noise, MessageKind, Received, SignalingEnvelope,
    SignalingError, Wait, NOISE_SUB_HOST_STATIC_PUB, NOISE_SUB_MSG,
};

verus! {

/// The X25519 public key of a secret.
pub uninterp spec fn x25519_public(secret: Seq<u8>) -> Seq<u8>;

/// `PublicKey::from(&StaticSecret)`: the X25519 public key that belongs to a secret.
#[verifier::external_body]
fn public_key(secret: [u8; 32]) -> (r: [u8; 32])
    ensures
        r@ == x25519_public(secret@),
{
    PublicKey::from(&StaticSecret::from(secret)).to_bytes()
}

/// `StaticSecret::random_from_rng` on the operating system's generator: a fresh secret, of which
/// nothing is known.
#[verifier::external_body]
fn random_secret() -> (r: [u8; 32]) {
    StaticSecret::random_from_rng(OsRng).to_bytes()
}

/// How far the handshake has come.
#[derive(Debug, Clone, Copy, PartialEq, Eq, Structural)]
pub enum Stage {
    /// Waiting for the browser to make itself known.
    Hello,
    /// Advertising the static key.
    Advertise,
    /// Setting up the handshake.
    Build,
    /// Waiting for the first message.
    First,
    /// Reading the first message.
    ReadFirst,
    /// Writing the second message.
    Write,
    /// Sending the second message.
    SendSecond,
    /// Waiting for the third message.
    Third,
    /// Reading the third message.
    ReadThird,
    /// Asking whether the handshake is finished.
    Check,
    /// Completing the handshake.
    Complete,
    /// The browser's committed fingerprint is known.
    Done,
    /// The handshake failed.
    Failed,
}

impl Stage {
    /// The position of the stage in the order of the handshake.
    pub open spec fn rank(self) -> int {
        match self {
            Stage::Hello => 0,
            Stage::Advertise => 1,
            Stage::Build => 2,
            Stage::First => 3,
            Stage::ReadFirst => 4,
            Stage::Write => 5,
            Stage::SendSecond => 6,
            Stage::Third => 7,
            Stage::ReadThird => 8,
            Stage::Check => 9,
            Stage::Complete => 10,
            Stage::Done => 11,
            Stage::Failed => -1,
        }
    }
}

/// What happened since the last action.
#[derive(Debug)]
pub enum NoiseEvent {
    /// Something came in from signaling.
    Signal(Received),
    /// The message was sent, or was not.
    Sent(bool),
    /// The handshake was set up, or was not.
    Built(bool),
    /// The message was read, or was refused.
    Read(bool),
    /// The message that was written, unless that failed.
    Written(Option<Vec<u8>>),
    /// Whether the handshake is finished.
    Finished(bool),
    /// Completing failed.
    NotCompleted,
    /// The handshake is complete, and the browser committed to a fingerprint or to none.
    Completed(Option<[u8; 32]>),
}

/// What to do next.
#[derive(Debug)]
pub enum NoiseAction {
    /// Begin a wait: for something from signaling to come within a full step timeout from now.
    Listen,
    /// Go on with the wait that was begun, for what is left of its time.
    Receive,
    /// Send the message.
    Send(SignalingEnvelope),
    /// Set up the handshake as its responder.
    Build,
    /// Read the handshake message.
    Read(Vec<u8>),
    /// Write a handshake message.
    Write,
    /// Ask whether the handshake is finished.
    CheckFinished,
    /// Complete the handshake.
    Complete,
    /// The handshake is done: the browser's fingerprint, and the one that it committed to.
    Done(String, [u8; 32]),
    /// The handshake failed.
    Fail(NoiseError),
}

/// The handshake failed.
#[derive(Debug, Clone, Copy, PartialEq, Eq, Structural)]
pub enum NoiseError {
    /// Signaling did not give what was waited for.
    Signaling(SignalingError),
    /// The static key was not sent.
    SendStaticPub,
    /// The handshake was not set up.
    Build,
    /// The first message was refused.
    ReadFirst,
    /// The second message was not written.
    WriteSecond,
    /// The second message was not sent.
    SendSecond,
    /// The third message was refused.
    ReadThird,
    /// The three messages did not finish the handshake.
    NotFinished,
    /// The handshake was not completed.
    Complete,
    /// The browser committed to no fingerprint.
    NoPin,
    /// The event does not belong to the stage.
    OutOfOrder,
}

impl NoiseError {
    /// What the error says.
    pub open spec fn text(self) -> Seq<char> {
        match self {
            NoiseError::Signaling(e) => e.text(),
            NoiseError::SendStaticPub => "failed to send host static pub"@,
            NoiseError::Build => "failed to construct XK responder"@,
            NoiseError::ReadFirst => "failed to read Noise msg0"@,
            NoiseError::WriteSecond => "failed to write Noise msg1"@,
            NoiseError::SendSecond => "failed to send Noise msg1"@,
            NoiseError::ReadThird => "failed to read Noise msg2"@,
            NoiseError::NotFinished => "Noise handshake did not finish after 3 messages"@,
            NoiseError::Complete => "Noise complete (first pairing) failed"@,
            NoiseError::NoPin => "browser BindCert carries no DTLS fingerprint (downgrade)"@,
            NoiseError::OutOfOrder => "handshake event out of order"@,
        }
    }

    /// What the error says.
    pub fn to_text(&self) -> (r: String)
        ensures
            r@ == self.text(),
    {
        match self {
            NoiseError::Signaling(e) => e.to_text(),
            NoiseError::SendStaticPub => "failed to send host static pub".to_owned(),
            NoiseError::Build => "failed to construct XK responder".to_owned(),
            NoiseError::ReadFirst => "failed to read Noise msg0".to_owned(),
            NoiseError::WriteSecond => "failed to write Noise msg1".to_owned(),
            NoiseError::SendSecond => "failed to send Noise msg1".to_owned(),
            NoiseError::ReadThird => "failed to read Noise msg2".to_owned(),
            NoiseError::NotFinished => "Noise handshake did not finish after 3 messages".to_owned(),
            NoiseError::Complete => "Noise complete (first pairing) failed".to_owned(),
            NoiseError::NoPin => {
                "browser BindCert carries no DTLS fingerprint (downgrade)".to_owned()
            },
            NoiseError::OutOfOrder => "handshake event out of order".to_owned(),
        }
    }
}

/// Decides the next step of the handshake.
pub struct NoiseResponder {
    stage: Stage,
    session_id: SessionId,
    local_fp: String,
    browser_fp: String,
    public: [u8; 32],
}

/// The state of the handshake.
pub struct Responder {
    /// How far it has come.
    pub stage: Stage,
    /// Session.
    pub session_id: SessionId,
    /// The host's fingerprint.
    pub local_fp: Seq<char>,
    /// The browser's fingerprint, once it is known.
    pub browser_fp: Seq<char>,
    /// The host's static public key.
    pub public: Seq<u8>,
}

impl View for NoiseResponder {
    type V = Responder;

    closed spec fn view(&self) -> Responder {
        Responder {
            stage: self.stage,
            session_id: self.session_id,
            local_fp: self.local_fp@,
            browser_fp: self.browser_fp@,
            public: self.public@,
        }
    }
}

impl Responder {
    /// The same, at another stage.
    pub open spec fn at(self, stage: Stage) -> Responder {
        Responder { stage, ..self }
    }

    /// The handshake fails with `e`.
    pub open spec fn fails(self, after: Responder, action: NoiseAction, e: NoiseError) -> bool {
        after == self.at(Stage::Failed) && action == NoiseAction::Fail(e)
    }

    /// After the event the state is `after`, and the action comes next.
    pub open spec fn steps(
        self,
        event: NoiseEvent,
        after: Responder,
        action: NoiseAction,
    ) -> bool {
        match (self.stage, event) {
            (Stage::Hello, NoiseEvent::Signal(Received::Message(e))) => if crate::signaling::is_hello(
                e,
            ) {
                &&& after == (Responder { browser_fp: e.from_fp@, ..self.at(Stage::Advertise) })
                &&& action matches NoiseAction::Send(m)
                &&& m.holds(
                    MessageKind::Noise,
                    self.session_id,
                    self.local_fp,
                    e.from_fp@,
                    seq![NOISE_SUB_HOST_STATIC_PUB] + self.public,
                )
            } else {
                after == self && action is Receive
            },
            (Stage::Hello, NoiseEvent::Signal(s)) => self.fails(
                after,
                action,
                NoiseError::Signaling(
                    crate::signaling::silence(s, crate::signaling::Awaited::NoiseHello),
                ),
            ),
            (Stage::Advertise, NoiseEvent::Sent(ok)) => if ok {
                after == self.at(Stage::Build) && action is Build
            } else {
                self.fails(after, action, NoiseError::SendStaticPub)
            },
            (Stage::Build, NoiseEvent::Built(ok)) => if ok {
                after == self.at(Stage::First) && action is Listen
            } else {
                self.fails(after, action, NoiseError::Build)
            },
            (Stage::First, NoiseEvent::Signal(s)) => self.waits(s, Stage::ReadFirst, after, action),
            (Stage::ReadFirst, NoiseEvent::Read(ok)) => if ok {
                after == self.at(Stage::Write) && action is Write
            } else {
                self.fails(after, action, NoiseError::ReadFirst)
            },
            (Stage::Write, NoiseEvent::Written(message)) => match message {
                Some(body) => {
                    &&& after == self.at(Stage::SendSecond)
                    &&& action matches NoiseAction::Send(m)
                    &&& m.holds(
                        MessageKind::Noise,
                        self.session_id,
                        self.local_fp,
                        self.browser_fp,
                        seq![NOISE_SUB_MSG] + body@,
                    )
                },
                None => self.fails(after, action, NoiseError::WriteSecond),
            },
            (Stage::SendSecond, NoiseEvent::Sent(ok)) => if ok {
                after == self.at(Stage::Third) && action is Listen
            } else {
                self.fails(after, action, NoiseError::SendSecond)
            },
            (Stage::Third, NoiseEvent::Signal(s)) => self.waits(s, Stage::ReadThird, after, action),
            (Stage::ReadThird, NoiseEvent::Read(ok)) => if ok {
                after == self.at(Stage::Check) && action is CheckFinished
            } else {
                self.fails(after, action, NoiseError::ReadThird)
            },
            (Stage::Check, NoiseEvent::Finished(yes)) => if yes {
                after == self.at(Stage::Complete) && action is Complete
            } else {
                self.fails(after, action, NoiseError::NotFinished)
            },
            (Stage::Complete, NoiseEvent::Completed(pin)) => match pin {
                Some(pin) => {
                    &&& after == self.at(Stage::Done)
                    &&& action matches NoiseAction::Done(fp, p)
                    &&& fp@ == self.browser_fp
                    &&& p == pin
                },
                None => self.fails(after, action, NoiseError::NoPin),
            },
            (Stage::Complete, NoiseEvent::NotCompleted) => self.fails(
                after,
                action,
                NoiseError::Complete,
            ),
            _ => self.fails(after, action, NoiseError::OutOfOrder),
        }
    }

    /// A handshake message from the browser leads to `next`, and anything else is waited out.
    pub open spec fn waits(
        self,
        s: Received,
        next: Stage,
        after: Responder,
        action: NoiseAction,
    ) -> bool {
        match s {
            Received::Message(e) => if crate::signaling::is_noise_message(e, self.browser_fp) {
                &&& after == self.at(next)
                &&& action matches NoiseAction::Read(body)
                &&& body@ == e.content().skip(1)
            } else {
                after == self && action is Receive
            },
            _ => self.fails(
                after,
                action,
                NoiseError::Signaling(
                    crate::signaling::silence(s, crate::signaling::Awaited::NoiseMessage),
                ),
            ),
        }
    }
}

impl NoiseResponder {
    /// A handshake with a static secret of the host's own choice.
    pub fn with_secret(session_id: SessionId, local_fp: &str, secret: [u8; 32]) -> (r: Self)
        ensures
            r@ == (Responder {
                stage: Stage::Hello,
                session_id,
                local_fp: local_fp@,
                browser_fp: ""@,
                public: x25519_public(secret@),
            }),
    {
        Self::with_public(session_id, local_fp, public_key(secret))
    }

    /// A handshake that advertises the given public key.
    pub fn with_public(session_id: SessionId, local_fp: &str, public: [u8; 32]) -> (r: Self)
        ensures
            r@ == (Responder {
                stage: Stage::Hello,
                session_id,
                local_fp: local_fp@,
                browser_fp: ""@,
                public: public@,
            }),
    {
        NoiseResponder {
            stage: Stage::Hello,
            session_id,
            local_fp: local_fp.to_owned(),
            browser_fp: "".to_owned(),
            public,
        }
    }

    /// A handshake with a fresh static secret, and the secret.
    pub fn generate(session_id: SessionId, local_fp: &str) -> (r: (Self, [u8; 32]))
        ensures
            r.0@ == (Responder {
                stage: Stage::Hello,
                session_id,
                local_fp: local_fp@,
                browser_fp: ""@,
                public: x25519_public(r.1@),
            }),
    {
        let secret = random_secret();
        (Self::with_secret(session_id, local_fp, secret), secret)
    }

    /// The first thing to do.
    pub fn start(&self) -> (r: NoiseAction)
        ensures
            r is Listen,
    {
        NoiseAction::Listen
    }

    fn fail(&mut self, e: NoiseError) -> (r: NoiseAction)
        ensures
            old(self)@.fails(final(self)@, r, e),
    {
        self.stage = Stage::Failed;
        NoiseAction::Fail(e)
    }

    fn advance(&mut self, stage: Stage, action: NoiseAction) -> (r: NoiseAction)
        ensures
            final(self)@ == old(self)@.at(stage),
            r == action,
    {
        self.stage = stage;
        action
    }

    fn wait_for_message(&mut self, s: Received, next: Stage) -> (r: NoiseAction)
        ensures
            old(self)@.waits(s, next, final(self)@, r),
    {
        match recv_noise_msg(s, self.browser_fp.as_str()) {
            Wait::Again => NoiseAction::Receive,
            Wait::Got(body) => self.advance(next, NoiseAction::Read(body)),
            Wait::Fail(e) => self.fail(NoiseError::Signaling(e)),
        }
    }

    /// Take in an event and decide what comes next.
    pub fn step(&mut self, event: NoiseEvent) -> (action: NoiseAction)
        ensures
            old(self)@.steps(event, final(self)@, action),
    {
        match (self.stage, event) {
            (Stage::Hello, NoiseEvent::Signal(s)) => match recv_noise_hello(s) {
                Wait::Again => NoiseAction::Receive,
                Wait::Got(fp) => {
                    let m = send_noise(
                        self.session_id,
                        self.local_fp.as_str(),
                        fp.as_str(),
                        NOISE_SUB_HOST_STATIC_PUB,
                        &self.public,
                    );
                    self.browser_fp = fp;
                    self.stage = Stage::Advertise;
                    NoiseAction::Send(m)
                },
                Wait::Fail(e) => self.fail(NoiseError::Signaling(e)),
            },
            (Stage::Advertise, NoiseEvent::Sent(ok)) => if ok {
                self.advance(Stage::Build, NoiseAction::Build)
            } else {
                self.fail(NoiseError::SendStaticPub)
            },
            (Stage::Build, NoiseEvent::Built(ok)) => if ok {
                self.advance(Stage::First, NoiseAction::Listen)
            } else {
                self.fail(NoiseError::Build)
            },
            (Stage::First, NoiseEvent::Signal(s)) => self.wait_for_message(s, Stage::ReadFirst),
            (Stage::ReadFirst, NoiseEvent::Read(ok)) => if ok {
                self.advance(Stage::Write, NoiseAction::Write)
            } else {
                self.fail(NoiseError::ReadFirst)
            },
            (Stage::Write, NoiseEvent::Written(message)) => match message {
                Some(body) => {
                    let m = send_noise(
                        self.session_id,
                        self.local_fp.as_str(),
                        self.browser_fp.as_str(),
                        NOISE_SUB_MSG,
                        body.as_slice(),
                    );
                    self.advance(Stage::SendSecond, NoiseAction::Send(m))
                },
                None => self.fail(NoiseError::WriteSecond),
            },
            (Stage::SendSecond, NoiseEvent::Sent(ok)) => if ok {
                self.advance(Stage::Third, NoiseAction::Listen)
            } else {
                self.fail(NoiseError::SendSecond)
            },
            (Stage::Third, NoiseEvent::Signal(s)) => self.wait_for_message(s, Stage::ReadThird),
            (Stage::ReadThird, NoiseEvent::Read(ok)) => if ok {
                self.advance(Stage::Check, NoiseAction::CheckFinished)
            } else {
                self.fail(NoiseError::ReadThird)
            },
            (Stage::Check, NoiseEvent::Finished(yes)) => if yes {
                self.advance(Stage::Complete, NoiseAction::Complete)
            } else {
                self.fail(NoiseError::NotFinished)
            },
            (Stage::Complete, NoiseEvent::Completed(pin)) => match pin {
                Some(pin) => {
                    self.stage = Stage::Done;
                    NoiseAction::Done(self.browser_fp.clone(), pin)
                },
                None => self.fail(NoiseError::NoPin),
            },
            (Stage::Complete, NoiseEvent::NotCompleted) => self.fail(NoiseError::Complete),
            _ => self.fail(NoiseError::OutOfOrder),
        }
    }
}

/// `states` are the states of a handshake, one event after another.
pub open spec fn handshake_run(
    states: Seq<Responder>,
    events: Seq<NoiseEvent>,
    actions: Seq<NoiseAction>,
) -> bool {
    &&& states.len() == events.len() + 1
    &&& actions.len() == events.len()
    &&& states[0].stage == Stage::Hello
    &&& forall|i: int|
        0 <= i < events.len() ==> states[i].steps(
            #[trigger] events[i],
            states[i + 1],
            actions[i],
        )
}

/// A handshake comes to its end only through every stage: whichever stage lies between the first
/// and the one that a run has reached, the run was in it.
pub proof fn law_no_stage_is_skipped(
    states: Seq<Responder>,
    events: Seq<NoiseEvent>,
    actions: Seq<NoiseAction>,
    n: int,
    stage: Stage,
)
    requires
        handshake_run(states, events, actions),
        0 <= n < states.len(),
        0 <= stage.rank() <= states[n].stage.rank(),
    ensures
        exists|i: int| 0 <= i <= n && #[trigger] states[i].stage == stage,
    decreases n,
{
    if states[n].stage == stage {
    } else {
        assert(n > 0) by {
            if n == 0 {
                assert(stage == Stage::Hello);
            }
        }
        assert(states[n - 1].steps(events[n - 1], states[n], actions[n - 1]));
        law_no_stage_is_skipped(states, events, actions, n - 1, stage);
        let i = choose|i: int| 0 <= i <= n - 1 && #[trigger] states[i].stage == stage;
        assert(0 <= i <= n && states[i].stage == stage);
    }
}

/// A wait has one timeout, whatever comes in meanwhile: what comes from signaling never begins a
/// new one, a message that is ignored only continues it, and each stage that waits is entered with
/// a new one.
pub proof fn law_ignored_messages_buy_no_time(
    before: Responder,
    event: NoiseEvent,
    after: Responder,
    action: NoiseAction,
)
    requires
        before.steps(event, after, action),
    ensures
        event is Signal ==> action !is Listen,
        action is Receive ==> event is Signal && event->Signal_0 is Message && after == before,
        action is Listen <==> after.stage != before.stage && (after.stage == Stage::First
            || after.stage == Stage::Third),
        after.stage == Stage::Hello ==> before.stage == Stage::Hello,
{
}

/// A pin comes out only of a complete handshake, and it is the one that the browser committed to:
/// it is never made up and never taken from elsewhere.
pub proof fn law_pin_is_the_committed_one(
    before: Responder,
    event: NoiseEvent,
    after: Responder,
    action: NoiseAction,
)
    requires
        before.steps(event, after, action),
        action is Done,
    ensures
        before.stage == Stage::Complete,
        event == NoiseEvent::Completed(Some(action->Done_1)),
        action->Done_0@ == before.browser_fp,
{
}

/// Once the browser is known, the handshake stays with it; a handshake that failed stays failed.
pub proof fn law_browser_is_fixed(
    before: Responder,
    event: NoiseEvent,
    after: Responder,
    action: NoiseAction,
)
    requires
        before.steps(event, after, action),
    ensures
        before.stage != Stage::Hello ==> after.browser_fp == before.browser_fp,
        before.stage == Stage::Failed ==> after.stage == Stage::Failed,
        before.stage == Stage::Done ==> after.stage == Stage::Failed,
{
}

/// When the handshake does what. A hello is answered with the host's key, which is marked by a 1;
/// once that is sent, the handshake is set up and listened for; the first message from the browser
/// is read and answered with what was written, marked by a 2; and the third is read, whereupon the
/// handshake is checked and completed. A message that is not waited for is waited out.
pub proof fn law_what_the_handshake_does_when(
    before: Responder,
    event: NoiseEvent,
    after: Responder,
    action: NoiseAction,
)
    requires
        before.steps(event, after, action),
    ensures
        ({
            let (stage, e) = (before.stage, event->Signal_0->Message_0);
            let message = event is Signal && event->Signal_0 is Message;
            let hello = message && e.kind == MessageKind::Noise && e.content().len() > 0
                && e.content()[0] == 0;
            let part = message && e.kind == MessageKind::Noise && e.from_fp@ == before.browser_fp
                && e.content().len() > 0 && e.content()[0] == 2;
            let reading = stage == Stage::First || stage == Stage::Third;
            &&& action is Send <==> stage == Stage::Hello && hello || stage == Stage::Write && event
                is Written && event->Written_0 is Some
            &&& action is Build <==> stage == Stage::Advertise && event == NoiseEvent::Sent(true)
            &&& action is Read <==> reading && part
            &&& action is Write <==> stage == Stage::ReadFirst && event == NoiseEvent::Read(true)
            &&& action is CheckFinished <==> stage == Stage::ReadThird && event == NoiseEvent::Read(
                true,
            )
            &&& action is Complete <==> stage == Stage::Check && event == NoiseEvent::Finished(true)
            &&& action is Done <==> stage == Stage::Complete && event is Completed
                && event->Completed_0 is Some
            &&& action is Receive <==> message && (stage == Stage::Hello && !hello || reading
                && !part)
            &&& action is Listen <==> stage == Stage::Build && event == NoiseEvent::Built(true)
                || stage == Stage::SendSecond && event == NoiseEvent::Sent(true)
            &&& action is Fail <==> after.stage == Stage::Failed
            &&& action is Read ==> action->Read_0@ == e.content().skip(1)
        }),
        after.session_id == before.session_id,
        after.local_fp == before.local_fp,
        after.public == before.public,
{
}

/// What the handshake sends: to the browser that said hello, the host's key behind a 1; and to the
/// browser of this handshake, what was written behind a 2. Both go out under the host's fingerprint
/// and the session's identity.
pub proof fn law_what_the_handshake_sends(
    before: Responder,
    event: NoiseEvent,
    after: Responder,
    action: NoiseAction,
)
    requires
        before.steps(event, after, action),
        action is Send,
    ensures
        ({
            let m = action->Send_0;
            &&& m.kind == MessageKind::Noise
            &&& m.session_id == before.session_id
            &&& m.from_fp@ == before.local_fp
            &&& m.to_fp@ == after.browser_fp
            &&& before.stage == Stage::Hello ==> after.browser_fp
                == event->Signal_0->Message_0.from_fp@ && m.content() == seq![1u8] + before.public
            &&& before.stage == Stage::Write ==> after.browser_fp == before.browser_fp
                && m.content() == seq![2u8] + event->Written_0->0@
        }),
{
}

/// Each step that fails says which one it was.
pub proof fn law_failed_steps_are_named(
    before: Responder,
    event: NoiseEvent,
    after: Responder,
    action: NoiseAction,
)
    requires
        before.steps(event, after, action),
    ensures
        before.stage == Stage::Advertise && event == NoiseEvent::Sent(false) ==> action
            == NoiseAction::Fail(NoiseError::SendStaticPub),
        before.stage == Stage::Build && event == NoiseEvent::Built(false) ==> action
            == NoiseAction::Fail(NoiseError::Build),
        before.stage == Stage::ReadFirst && event == NoiseEvent::Read(false) ==> action
            == NoiseAction::Fail(NoiseError::ReadFirst),
        before.stage == Stage::Write && event is Written && event->Written_0 is None ==> action
            == NoiseAction::Fail(NoiseError::WriteSecond),
        before.stage == Stage::SendSecond && event == NoiseEvent::Sent(false) ==> action
            == NoiseAction::Fail(NoiseError::SendSecond),
        before.stage == Stage::ReadThird && event == NoiseEvent::Read(false) ==> action
            == NoiseAction::Fail(NoiseError::ReadThird),
        before.stage == Stage::Check && event == NoiseEvent::Finished(false) ==> action
            == NoiseAction::Fail(NoiseError::NotFinished),
        before.stage == Stage::Complete && event is NotCompleted ==> action == NoiseAction::Fail(
            NoiseError::Complete,
        ),
        before.stage == Stage::Complete && event is Completed && event->Completed_0 is None
            ==> action == NoiseAction::Fail(NoiseError::NoPin),
        before.stage == Stage::Hello && event is Signal && !(event->Signal_0 is Message) ==> action
            is Fail && action->Fail_0 == NoiseError::Signaling(
            crate::signaling::silence(event->Signal_0, crate::signaling::Awaited::NoiseHello),
        ),
        (before.stage == Stage::First || before.stage == Stage::Third) && event is Signal && !(
        event->Signal_0 is Message) ==> action is Fail && action->Fail_0 == NoiseError::Signaling(
            crate::signaling::silence(event->Signal_0, crate::signaling::Awaited::NoiseMessage),
        ),
        action is Done ==> after.stage == Stage::Done,
{
}

} // verus!
