//! Connecting a host to a browser, from the local certificate to the end of the session.
//!
//! The caller connects, waits, sends and streams; [`HostRun`] decides what comes next. The
//! certificate that the transport will accept is the one that the browser committed to in the
//! handshake, never the one that the session description names.
use str0m::Rtc;
use vstd::prelude::*;

use crate::noise::NoiseError;
use crate::session_id::{hex_encode, SessionId};
use crate::signaling::{
    pump_candidates, receive_offer, text_envelope, MessageKind, PumpStep, Received,
    SignalingEnvelope, SignalingError, Wait,
};
use crate::text::push_decimal;

verus! {

/// The peer connection of the `str0m` crate.
#[verifier::external_type_specification]
#[verifier::external_body]
pub struct ExRtc(str0m::Rtc);

/// A point of the monotonic clock.
#[verifier::external_type_specification]
#[verifier::external_body]
pub struct ExInstant(std::time::Instant);

/// The SHA-256 digest of a peer connection's own certificate.
pub uninterp spec fn certificate_digest(rtc: Rtc) -> Seq<u8>;

/// `Rtc::new`: a peer connection with default settings and a fresh certificate. The certificate is
/// random, so nothing is known of it.
#[verifier::external_body]
fn new_rtc(start: std::time::Instant) -> (r: Rtc) {
    Rtc::new(start)
}

/// `DirectApi::local_dtls_fingerprint`: the SHA-256 digest of the connection's own certificate, and
/// so 32 bytes. The connection stays as it is.
#[verifier::external_body]
fn local_fingerprint(rtc: &mut Rtc) -> (r: Vec<u8>)
    ensures
        r@ == certificate_digest(*final(rtc)),
        r@.len() == 32,
        *final(rtc) == *old(rtc),
{
    rtc.direct_api().local_dtls_fingerprint().bytes.clone()
}

/// Milliseconds that queued datagrams get to leave before a host exits.
pub const FLUSH_MS: u64 = 500;

/// Bytes of a certificate digest.
pub const DIGEST_LEN: usize = 32;

/// A host's run failed.
#[derive(Debug, Clone, Copy, PartialEq, Eq, Structural)]
pub enum HostError {
    /// The local digest, as text, is not as long as it should be.
    FingerprintLength(u64),
    /// No connection to the signaling server.
    Connect,
    /// The handshake failed.
    Handshake(NoiseError),
    /// The session description did not come.
    Offer(SignalingError),
    /// The bind address is malformed.
    BindAddress,
    /// The socket was not bound.
    Bind,
    /// The transport refused the session description.
    Bridge,
    /// The transport refused the local address.
    Register,
    /// The answer was not sent.
    SendAnswer,
    /// The local address was not sent.
    SendCandidate,
    /// The end of addresses was not sent.
    SendEndOfCandidates,
    /// Receiving failed while addresses came in.
    Pump,
    /// The session broke down.
    Panicked,
    /// The session failed.
    Exchange,
    /// The event does not belong to the stage.
    OutOfOrder,
}

impl HostError {
    /// What the error says.
    pub open spec fn text(self) -> Seq<char> {
        match self {
            HostError::FingerprintLength(n) =>
                "unexpected fingerprint length (expected 64 hex chars, got "@
                + crate::text::decimal(n as nat) + ")"@,
            HostError::Connect => "failed to connect to signaling server"@,
            HostError::Handshake(e) => "identity-bound Noise handshake failed: "@ + e.text(),
            HostError::Offer(e) => e.text(),
            HostError::BindAddress => "invalid --bind address"@,
            HostError::Bind => "failed to bind UDP socket"@,
            HostError::Bridge => "SDP bridge error"@,
            HostError::Register => "failed to register local ICE candidate"@,
            HostError::SendAnswer => "failed to send SDP answer"@,
            HostError::SendCandidate => "failed to send local ICE candidate"@,
            HostError::SendEndOfCandidates => "failed to send EndOfCandidates"@,
            HostError::Pump => "signaling recv during candidate pump"@,
            HostError::Panicked => "DataChannel task panicked"@,
            HostError::Exchange => "DataChannel exchange failed"@,
            HostError::OutOfOrder => "host event out of order"@,
        }
    }

    /// What the error says.
    pub fn to_text(&self) -> (r: String)
        ensures
            r@ == self.text(),
    {
        match self {
            HostError::FingerprintLength(n) => {
                let mut s = "unexpected fingerprint length (expected 64 hex chars, got ".to_owned();
                push_decimal(&mut s, *n);
                s.append(")");
                s
            },
            HostError::Connect => "failed to connect to signaling server".to_owned(),
            HostError::Handshake(e) => {
                let mut s = "identity-bound Noise handshake failed: ".to_owned();
                s.append(e.to_text().as_str());
                s
            },
            HostError::Offer(e) => e.to_text(),
            HostError::BindAddress => "invalid --bind address".to_owned(),
            HostError::Bind => "failed to bind UDP socket".to_owned(),
            HostError::Bridge => "SDP bridge error".to_owned(),
            HostError::Register => "failed to register local ICE candidate".to_owned(),
            HostError::SendAnswer => "failed to send SDP answer".to_owned(),
            HostError::SendCandidate => "failed to send local ICE candidate".to_owned(),
            HostError::SendEndOfCandidates => "failed to send EndOfCandidates".to_owned(),
            HostError::Pump => "signaling recv during candidate pump".to_owned(),
            HostError::Panicked => "DataChannel task panicked".to_owned(),
            HostError::Exchange => "DataChannel exchange failed".to_owned(),
            HostError::OutOfOrder => "host event out of order".to_owned(),
        }
    }
}

/// The digest of the local certificate.
#[derive(Debug, Clone, PartialEq, Eq)]
pub struct Commitment {
    /// The digest as text.
    pub hex: String,
    /// The digest.
    pub digest: [u8; 32],
}

/// The text is a digest's: 64 characters, each a digit or a small letter from a to f.
pub open spec fn is_digest_text(text: Seq<char>) -> bool {
    &&& text.len() == 64
    &&& forall|i: int| 0 <= i < 64 ==> crate::session_id::is_lower_hex(#[trigger] text[i])
}

/// The digest as it is committed to; an error when it is not as long as it should be.
pub fn commit_fingerprint(bytes: &[u8]) -> (r: Result<Commitment, HostError>)
    ensures
        r is Ok <==> bytes@.len() == DIGEST_LEN,
        r matches Ok(c) ==> c.hex@ == crate::session_id::hex_text(bytes@) && c.digest@ == bytes@
            && is_digest_text(c.hex@),
        r matches Err(e) ==> e == HostError::FingerprintLength(
            if 2 * bytes@.len() > u64::MAX {
                u64::MAX
            } else {
                (2 * bytes@.len()) as u64
            },
        ),
{
    let hex = hex_encode(bytes);
    if bytes.len() != DIGEST_LEN {
        let n: u64 = bytes.len() as u64;
        return Err(HostError::FingerprintLength(n.saturating_add(n)));
    }
    let mut digest: [u8; 32] = [0u8; 32];
    let mut i: usize = 0;
    while i < 32
        invariant
            i <= 32,
            bytes@.len() == 32,
            forall|k: int| 0 <= k < i ==> digest@[k] == bytes@[k],
        decreases 32 - i,
    {
        let ghost before = digest@;
        digest[i] = bytes[i];
        assert(digest@ =~= before.update(i as int, bytes@[i as int]));
        i = i + 1;
    }
    assert(digest@ =~= bytes@);
    proof {
        crate::session_id::law_hex_text_is_lower_case(bytes@);
    }
    Ok(Commitment { hex, digest })
}

/// A peer connection with its certificate's digest.
pub struct LocalPeer {
    rtc: Rtc,
    commitment: Commitment,
}

impl LocalPeer {
    /// The digest of the certificate.
    pub closed spec fn committed(self) -> Commitment {
        self.commitment
    }

    /// The peer connection.
    pub closed spec fn connection(self) -> Rtc {
        self.rtc
    }

    /// A peer connection with a fresh certificate. What it commits to is the digest of that
    /// certificate.
    pub fn new(start: std::time::Instant) -> (r: Result<Self, HostError>)
        ensures
            r matches Ok(peer) && peer.committed().digest@ == certificate_digest(peer.connection()),
            r matches Ok(peer) ==> peer.committed().hex@ == crate::session_id::hex_text(
                peer.committed().digest@,
            ) && is_digest_text(peer.committed().hex@),
    {
        let mut rtc = new_rtc(start);
        let digest = local_fingerprint(&mut rtc);
        match commit_fingerprint(digest.as_slice()) {
            Ok(commitment) => Ok(LocalPeer { rtc, commitment }),
            Err(e) => Err(e),
        }
    }

    /// The digest of the certificate.
    pub fn commitment(&self) -> (r: &Commitment)
        ensures
            *r == self.committed(),
    {
        &self.commitment
    }

    /// The peer connection.
    pub fn into_rtc(self) -> (r: Rtc)
        ensures
            r == self.connection(),
    {
        self.rtc
    }
}

/// How far a run has come.
#[derive(Debug, Clone, Copy, PartialEq, Eq, Structural)]
pub enum HostStage {
    /// Announcing the local digest.
    Announce,
    /// Connecting to the signaling server.
    Connect,
    /// Running the handshake.
    Handshake,
    /// Waiting for the session description.
    Offer,
    /// Binding the socket.
    Bind,
    /// Answering the session description.
    Bridge,
    /// Registering the local address.
    Register,
    /// Sending the answer.
    SendAnswer,
    /// Sending the local address.
    SendCandidate,
    /// Sending the end of addresses.
    SendEnd,
    /// Streaming, while addresses come in.
    Pump,
    /// Streaming, until that ends.
    Join,
    /// Letting queued datagrams leave.
    Flush,
    /// Over.
    Done,
    /// Failed.
    Failed,
}

impl HostStage {
    /// The position of the stage in the order of a run.
    pub open spec fn rank(self) -> int {
        match self {
            HostStage::Announce => 0,
            HostStage::Connect => 1,
            HostStage::Handshake => 2,
            HostStage::Offer => 3,
            HostStage::Bind => 4,
            HostStage::Bridge => 5,
            HostStage::Register => 6,
            HostStage::SendAnswer => 7,
            HostStage::SendCandidate => 8,
            HostStage::SendEnd => 9,
            HostStage::Pump => 10,
            HostStage::Join => 11,
            HostStage::Flush => 12,
            HostStage::Done => 13,
            HostStage::Failed => -1,
        }
    }
}

/// What happened since the last action.
#[derive(Debug)]
pub enum HostEvent {
    /// The local digest was announced.
    Announced,
    /// The signaling server was reached, or was not.
    Connected(bool),
    /// The handshake ended: the browser's fingerprint and the one that it committed to.
    Paired(String, [u8; 32]),
    /// The handshake failed.
    NotPaired(NoiseError),
    /// Something came in from signaling.
    Signal(Received),
    /// The socket is bound.
    Bound,
    /// The bind address is malformed.
    BadAddress,
    /// The socket was not bound.
    NotBound,
    /// The answer to the session description, unless the transport refused it.
    Bridged(Option<String>),
    /// The local address, unless the transport refused it.
    Registered(Option<String>),
    /// The message was sent, or was not.
    Sent(bool),
    /// The session ended, or failed.
    Joined(bool),
    /// The session broke down.
    Panicked,
    /// Queued datagrams have left.
    Flushed,
}

/// What to do next.
#[derive(Debug)]
pub enum HostAction {
    /// Announce the local digest to whoever started the run.
    Announce(String),
    /// Connect to the signaling server under the given fingerprint.
    Connect(String),
    /// Run the handshake under the given fingerprint, committing to the given digest.
    Handshake(String, [u8; 32]),
    /// Begin a wait: for something from signaling to come within a full step timeout from now.
    Listen,
    /// Go on with the wait that was begun, for what is left of its time.
    Receive,
    /// Bind the socket.
    Bind,
    /// Answer the session description, accepting only the certificate with the given digest.
    Bridge(String, [u8; 32]),
    /// Register the local address with the transport.
    Register,
    /// Send the message.
    Send(SignalingEnvelope),
    /// Start the transport and the session, and begin a wait.
    Drive,
    /// Hand the address to the transport, and go on with the wait that was begun.
    AddCandidate(String),
    /// Leave signaling and wait for the session to end.
    Join,
    /// Let queued datagrams leave.
    Flush,
    /// The run is over.
    Finish(Result<(), HostError>),
}

/// The state of a run.
pub struct HostView {
    /// How far it has come.
    pub stage: HostStage,
    /// Session.
    pub session_id: SessionId,
    /// The host's fingerprint.
    pub local_fp: Seq<char>,
    /// The digest of the host's certificate.
    pub digest: Seq<u8>,
    /// The browser's fingerprint, once it is known.
    pub browser_fp: Seq<char>,
    /// The digest that the browser committed to, once it is known.
    pub pin: Seq<u8>,
    /// The session description, once it is known.
    pub offer: Seq<char>,
    /// The answer, once it is known.
    pub answer: Seq<char>,
    /// The local address, once it is known.
    pub candidate: Seq<char>,
}

impl HostView {
    /// The same, at another stage.
    pub open spec fn at(self, stage: HostStage) -> HostView {
        HostView { stage, ..self }
    }

    /// The run fails with `e`.
    pub open spec fn fails(self, after: HostView, action: HostAction, e: HostError) -> bool {
        after == self.at(HostStage::Failed) && action == HostAction::Finish(Err(e))
    }

    /// The action sends the browser a message.
    pub open spec fn sends(self, action: HostAction, kind: MessageKind, content: Seq<u8>) -> bool {
        action matches HostAction::Send(m) && m.holds(
            kind,
            self.session_id,
            self.local_fp,
            self.browser_fp,
            content,
        )
    }

    /// After the event the state is `after`, and the action comes next.
    pub open spec fn steps(self, event: HostEvent, after: HostView, action: HostAction) -> bool {
        match (self.stage, event) {
            (HostStage::Announce, HostEvent::Announced) => {
                &&& after == self.at(HostStage::Connect)
                &&& action matches HostAction::Connect(fp)
                &&& fp@ == self.local_fp
            },
            (HostStage::Connect, HostEvent::Connected(ok)) => if ok {
                &&& after == self.at(HostStage::Handshake)
                &&& action matches HostAction::Handshake(fp, digest)
                &&& fp@ == self.local_fp
                &&& digest@ == self.digest
            } else {
                self.fails(after, action, HostError::Connect)
            },
            (HostStage::Handshake, HostEvent::Paired(fp, pin)) => {
                &&& after == (HostView {
                    browser_fp: fp@,
                    pin: pin@,
                    ..self.at(HostStage::Offer)
                })
                &&& action is Listen
            },
            (HostStage::Handshake, HostEvent::NotPaired(e)) => self.fails(
                after,
                action,
                HostError::Handshake(e),
            ),
            (HostStage::Offer, HostEvent::Signal(s)) => match s {
                Received::Message(e) => if !crate::signaling::is_offer(e, self.browser_fp) {
                    after == self && action is Receive
                } else if vstd::utf8::valid_utf8(e.content()) {
                    &&& after == (HostView { offer: after.offer, ..self.at(HostStage::Bind) })
                    &&& vstd::utf8::encode_utf8(after.offer) == e.content()
                    &&& action is Bind
                } else {
                    self.fails(after, action, HostError::Offer(SignalingError::OfferNotUtf8))
                },
                _ => self.fails(
                    after,
                    action,
                    HostError::Offer(
                        crate::signaling::silence(s, crate::signaling::Awaited::Offer),
                    ),
                ),
            },
            (HostStage::Bind, HostEvent::Bound) => {
                &&& after == self.at(HostStage::Bridge)
                &&& action matches HostAction::Bridge(offer, pin)
                &&& offer@ == self.offer
                &&& pin@ == self.pin
            },
            (HostStage::Bind, HostEvent::BadAddress) => self.fails(
                after,
                action,
                HostError::BindAddress,
            ),
            (HostStage::Bind, HostEvent::NotBound) => self.fails(after, action, HostError::Bind),
            (HostStage::Bridge, HostEvent::Bridged(answer)) => match answer {
                Some(a) => {
                    after == (HostView { answer: a@, ..self.at(HostStage::Register) })
                        && action is Register
                },
                None => self.fails(after, action, HostError::Bridge),
            },
            (HostStage::Register, HostEvent::Registered(candidate)) => match candidate {
                Some(c) => {
                    &&& after == (HostView { candidate: c@, ..self.at(HostStage::SendAnswer) })
                    &&& self.sends(
                        action,
                        MessageKind::Answer,
                        vstd::utf8::encode_utf8(self.answer),
                    )
                },
                None => self.fails(after, action, HostError::Register),
            },
            (HostStage::SendAnswer, HostEvent::Sent(ok)) => if ok {
                &&& after == self.at(HostStage::SendCandidate)
                &&& self.sends(
                    action,
                    MessageKind::Candidate,
                    vstd::utf8::encode_utf8(self.candidate),
                )
            } else {
                self.fails(after, action, HostError::SendAnswer)
            },
            (HostStage::SendCandidate, HostEvent::Sent(ok)) => if ok {
                &&& after == self.at(HostStage::SendEnd)
                &&& self.sends(action, MessageKind::EndOfCandidates, Seq::empty())
            } else {
                self.fails(after, action, HostError::SendCandidate)
            },
            (HostStage::SendEnd, HostEvent::Sent(ok)) => if ok {
                after == self.at(HostStage::Pump) && action is Drive
            } else {
                self.fails(after, action, HostError::SendEndOfCandidates)
            },
            (HostStage::Pump, HostEvent::Signal(s)) => self.pumps(s, after, action),
            (HostStage::Join, HostEvent::Joined(ok)) => if ok {
                after == self.at(HostStage::Flush) && action is Flush
            } else {
                self.fails(after, action, HostError::Exchange)
            },
            (HostStage::Join, HostEvent::Panicked) => self.fails(
                after,
                action,
                HostError::Panicked,
            ),
            (HostStage::Flush, HostEvent::Flushed) => {
                after == self.at(HostStage::Done) && action == HostAction::Finish(Ok(()))
            },
            _ => self.fails(after, action, HostError::OutOfOrder),
        }
    }

    /// While addresses come in, they are handed on until they end.
    pub open spec fn pumps(self, s: Received, after: HostView, action: HostAction) -> bool {
        match s {
            Received::Message(e) => match e.kind {
                MessageKind::Candidate => if vstd::utf8::valid_utf8(e.content()) {
                    &&& after == self
                    &&& action matches HostAction::AddCandidate(c)
                    &&& vstd::utf8::encode_utf8(c@) == e.content()
                } else {
                    after == self && action is Receive
                },
                MessageKind::EndOfCandidates | MessageKind::Bye => {
                    after == self.at(HostStage::Join) && action is Join
                },
                _ => after == self && action is Receive,
            },
            Received::Closed | Received::TimedOut => {
                after == self.at(HostStage::Join) && action is Join
            },
            Received::Failed => self.fails(after, action, HostError::Pump),
        }
    }
}

/// Decides the next step of a run.
pub struct HostRun {
    stage: HostStage,
    session_id: SessionId,
    local_fp: String,
    digest: [u8; 32],
    browser_fp: String,
    pin: [u8; 32],
    offer: String,
    answer: String,
    candidate: String,
}

impl View for HostRun {
    type V = HostView;

    closed spec fn view(&self) -> HostView {
        HostView {
            stage: self.stage,
            session_id: self.session_id,
            local_fp: self.local_fp@,
            digest: self.digest@,
            browser_fp: self.browser_fp@,
            pin: self.pin@,
            offer: self.offer@,
            answer: self.answer@,
            candidate: self.candidate@,
        }
    }
}

impl HostRun {
    /// A run of a host that commits to `commitment`, and the first action: announcing it.
    pub fn start(session_id: SessionId, commitment: &Commitment) -> (r: (Self, HostAction))
        ensures
            r.0@ == (HostView {
                stage: HostStage::Announce,
                session_id,
                local_fp: commitment.hex@,
                digest: commitment.digest@,
                browser_fp: ""@,
                pin: Seq::new(32, |i: int| 0u8),
                offer: ""@,
                answer: ""@,
                candidate: ""@,
            }),
            r.1 matches HostAction::Announce(hex) && hex@ == commitment.hex@,
    {
        let pin: [u8; 32] = [0u8; 32];
        assert(pin@ =~= Seq::new(32, |i: int| 0u8));
        (
            HostRun {
                stage: HostStage::Announce,
                session_id,
                local_fp: commitment.hex.clone(),
                digest: commitment.digest,
                browser_fp: "".to_owned(),
                pin,
                offer: "".to_owned(),
                answer: "".to_owned(),
                candidate: "".to_owned(),
            },
            HostAction::Announce(commitment.hex.clone()),
        )
    }

    fn fail(&mut self, e: HostError) -> (r: HostAction)
        ensures
            old(self)@.fails(final(self)@, r, e),
    {
        self.stage = HostStage::Failed;
        HostAction::Finish(Err(e))
    }

    fn advance(&mut self, stage: HostStage, action: HostAction) -> (r: HostAction)
        ensures
            final(self)@ == old(self)@.at(stage),
            r == action,
    {
        self.stage = stage;
        action
    }

    fn envelope(&self, kind: MessageKind, text: &str) -> (r: HostAction)
        ensures
            self@.sends(r, kind, vstd::utf8::encode_utf8(text@)),
    {
        HostAction::Send(
            text_envelope(
                kind,
                self.session_id,
                self.local_fp.as_str(),
                self.browser_fp.as_str(),
                text,
            ),
        )
    }

    fn on_offer(&mut self, s: Received) -> (action: HostAction)
        requires
            old(self)@.stage == HostStage::Offer,
        ensures
            old(self)@.steps(HostEvent::Signal(s), final(self)@, action),
    {
        match receive_offer(s, self.browser_fp.as_str()) {
            Wait::Again => HostAction::Receive,
            Wait::Got(offer) => {
                self.offer = offer;
                self.advance(HostStage::Bind, HostAction::Bind)
            },
            Wait::Fail(e) => self.fail(HostError::Offer(e)),
        }
    }

    fn on_pump(&mut self, s: Received) -> (action: HostAction)
        ensures
            old(self)@.pumps(s, final(self)@, action),
    {
        match pump_candidates(s) {
            PumpStep::Ignore => HostAction::Receive,
            PumpStep::Add(c) => HostAction::AddCandidate(c),
            PumpStep::Done => self.advance(HostStage::Join, HostAction::Join),
            PumpStep::Fail => self.fail(HostError::Pump),
        }
    }

    /// Take in an event and decide what comes next.
    pub fn step(&mut self, event: HostEvent) -> (action: HostAction)
        ensures
            old(self)@.steps(event, final(self)@, action),
    {
        match (self.stage, event) {
            (HostStage::Announce, HostEvent::Announced) => {
                let action = HostAction::Connect(self.local_fp.clone());
                self.advance(HostStage::Connect, action)
            },
            (HostStage::Connect, HostEvent::Connected(ok)) => if ok {
                let action = HostAction::Handshake(self.local_fp.clone(), self.digest);
                self.advance(HostStage::Handshake, action)
            } else {
                self.fail(HostError::Connect)
            },
            (HostStage::Handshake, HostEvent::Paired(fp, pin)) => {
                self.browser_fp = fp;
                self.pin = pin;
                self.advance(HostStage::Offer, HostAction::Listen)
            },
            (HostStage::Handshake, HostEvent::NotPaired(e)) => self.fail(HostError::Handshake(e)),
            (HostStage::Offer, HostEvent::Signal(s)) => self.on_offer(s),
            (HostStage::Bind, HostEvent::Bound) => {
                let action = HostAction::Bridge(self.offer.clone(), self.pin);
                self.advance(HostStage::Bridge, action)
            },
            (HostStage::Bind, HostEvent::BadAddress) => self.fail(HostError::BindAddress),
            (HostStage::Bind, HostEvent::NotBound) => self.fail(HostError::Bind),
            (HostStage::Bridge, HostEvent::Bridged(answer)) => match answer {
                Some(a) => {
                    self.answer = a;
                    self.advance(HostStage::Register, HostAction::Register)
                },
                None => self.fail(HostError::Bridge),
            },
            (HostStage::Register, HostEvent::Registered(candidate)) => match candidate {
                Some(c) => {
                    let action = self.envelope(MessageKind::Answer, self.answer.as_str());
                    self.candidate = c;
                    self.advance(HostStage::SendAnswer, action)
                },
                None => self.fail(HostError::Register),
            },
            (HostStage::SendAnswer, HostEvent::Sent(ok)) => if ok {
                let action = self.envelope(MessageKind::Candidate, self.candidate.as_str());
                self.advance(HostStage::SendCandidate, action)
            } else {
                self.fail(HostError::SendAnswer)
            },
            (HostStage::SendCandidate, HostEvent::Sent(ok)) => if ok {
                proof {
                    reveal_strlit("");
                    assert(""@ =~= Seq::<char>::empty());
                    assert(vstd::utf8::encode_utf8(""@) =~= Seq::<u8>::empty());
                }
                let action = self.envelope(MessageKind::EndOfCandidates, "");
                self.advance(HostStage::SendEnd, action)
            } else {
                self.fail(HostError::SendCandidate)
            },
            (HostStage::SendEnd, HostEvent::Sent(ok)) => if ok {
                self.advance(HostStage::Pump, HostAction::Drive)
            } else {
                self.fail(HostError::SendEndOfCandidates)
            },
            (HostStage::Pump, HostEvent::Signal(s)) => self.on_pump(s),
            (HostStage::Join, HostEvent::Joined(ok)) => if ok {
                self.advance(HostStage::Flush, HostAction::Flush)
            } else {
                self.fail(HostError::Exchange)
            },
            (HostStage::Join, HostEvent::Panicked) => self.fail(HostError::Panicked),
            (HostStage::Flush, HostEvent::Flushed) => self.advance(
                HostStage::Done,
                HostAction::Finish(Ok(())),
            ),
            _ => self.fail(HostError::OutOfOrder),
        }
    }
}

/// `states` are the states of a run, one event after another.
pub open spec fn host_run(
    states: Seq<HostView>,
    events: Seq<HostEvent>,
    actions: Seq<HostAction>,
) -> bool {
    &&& states.len() == events.len() + 1
    &&& actions.len() == events.len()
    &&& states[0].stage == HostStage::Announce
    &&& forall|i: int|
        0 <= i < events.len() ==> states[i].steps(
            #[trigger] events[i],
            states[i + 1],
            actions[i],
        )
}

/// A run gets nowhere without the stages before: whichever stage lies between the first and the one
/// that a run has reached, the run was in it. No session starts without a handshake.
pub proof fn law_no_host_stage_is_skipped(
    states: Seq<HostView>,
    events: Seq<HostEvent>,
    actions: Seq<HostAction>,
    n: int,
    stage: HostStage,
)
    requires
        host_run(states, events, actions),
        0 <= n < states.len(),
        0 <= stage.rank() <= states[n].stage.rank(),
    ensures
        exists|i: int| 0 <= i <= n && #[trigger] states[i].stage == stage,
    decreases n,
{
    if states[n].stage == stage {
    } else {
        assert(n > 0) by {
            if n == 0 {
                assert(stage == HostStage::Announce);
            }
        }
        assert(states[n - 1].steps(events[n - 1], states[n], actions[n - 1]));
        law_no_host_stage_is_skipped(states, events, actions, n - 1, stage);
        let i = choose|i: int| 0 <= i <= n - 1 && #[trigger] states[i].stage == stage;
        assert(0 <= i <= n && states[i].stage == stage);
    }
}

/// The local digest is announced once, before all else. A run begins with announcing it; no later
/// action announces again, and until it was announced a run does nothing but fail.
pub proof fn law_digest_is_announced_first_and_once(
    states: Seq<HostView>,
    events: Seq<HostEvent>,
    actions: Seq<HostAction>,
    n: int,
)
    requires
        host_run(states, events, actions),
        0 <= n < actions.len(),
    ensures
        actions[n] !is Announce,
        events[0] is Announced || (actions[n] matches HostAction::Finish(r) && r is Err),
        events[0] is Announced ==> actions[0] is Connect,
        n > 0 ==> actions[n] !is Connect,
{
    assert(states[n].steps(events[n], states[n + 1], actions[n]));
    assert(states[0].steps(events[0], states[1], actions[0]));
    lemma_stage_after_announcing(states, events, actions, n);
}

/// After its first event a run is past announcing, or has failed if that was not the announcement.
proof fn lemma_stage_after_announcing(
    states: Seq<HostView>,
    events: Seq<HostEvent>,
    actions: Seq<HostAction>,
    n: int,
)
    requires
        host_run(states, events, actions),
        0 <= n < states.len(),
    ensures
        n > 0 ==> states[n].stage != HostStage::Announce,
        n > 0 && !(events[0] is Announced) ==> states[n].stage == HostStage::Failed,
    decreases n,
{
    if n > 0 {
        assert(states[n - 1].steps(events[n - 1], states[n], actions[n - 1]));
        lemma_stage_after_announcing(states, events, actions, n - 1);
    }
}

/// A host is the same to all: what it announces is what it connects under, and the handshake commits
/// to the digest that it started with.
pub proof fn law_host_identity_is_fixed(
    states: Seq<HostView>,
    events: Seq<HostEvent>,
    actions: Seq<HostAction>,
    n: int,
)
    requires
        host_run(states, events, actions),
        0 <= n < states.len(),
    ensures
        states[n].local_fp == states[0].local_fp,
        states[n].digest == states[0].digest,
        states[n].session_id == states[0].session_id,
        n < actions.len() ==> match actions[n] {
            HostAction::Connect(fp) => fp@ == states[0].local_fp,
            HostAction::Handshake(fp, digest) => fp@ == states[0].local_fp && digest@
                == states[0].digest,
            HostAction::Send(m) => m.from_fp@ == states[0].local_fp && m.session_id
                == states[0].session_id,
            _ => true,
        },
    decreases n,
{
    if n > 0 {
        assert(states[n - 1].steps(events[n - 1], states[n], actions[n - 1]));
        law_host_identity_is_fixed(states, events, actions, n - 1);
    }
    if n < actions.len() {
        assert(states[n].steps(events[n], states[n + 1], actions[n]));
    }
}

/// A wait has one timeout, whatever comes in meanwhile: what comes from signaling never begins a
/// new one, a message that is ignored or handed on only continues it, and each stage that waits is
/// entered with a new one.
pub proof fn law_ignored_signals_buy_no_time(
    before: HostView,
    event: HostEvent,
    after: HostView,
    action: HostAction,
)
    requires
        before.steps(event, after, action),
    ensures
        event is Signal ==> action !is Listen && action !is Drive,
        action is Receive || action is AddCandidate ==> event is Signal
            && event->Signal_0 is Message && after == before,
        action is Listen <==> after.stage != before.stage && after.stage == HostStage::Offer,
        action is Drive <==> after.stage != before.stage && after.stage == HostStage::Pump,
{
}

/// The browser that was paired with, as far as a run has come.
pub open spec fn paired_with(events: Seq<HostEvent>, n: int, fp: Seq<char>, pin: Seq<u8>) -> bool {
    exists|i: int|
        0 <= i < n && #[trigger] events[i] is Paired && events[i]->Paired_0@ == fp
            && events[i]->Paired_1@ == pin
}

/// The certificate that the transport is told to accept is the one that the browser committed to
/// in the handshake. The session description has no say in it.
pub proof fn law_transport_is_pinned_to_the_handshake(
    states: Seq<HostView>,
    events: Seq<HostEvent>,
    actions: Seq<HostAction>,
    n: int,
)
    requires
        host_run(states, events, actions),
        0 <= n < actions.len(),
        actions[n] is Bridge,
    ensures
        paired_with(events, n, states[n].browser_fp, actions[n]->Bridge_1@),
{
    assert(states[n].steps(events[n], states[n + 1], actions[n]));
    lemma_pin_is_from_pairing(states, events, actions, n);
}

/// Past the handshake, browser and pin are those of the pairing.
proof fn lemma_pin_is_from_pairing(
    states: Seq<HostView>,
    events: Seq<HostEvent>,
    actions: Seq<HostAction>,
    n: int,
)
    requires
        host_run(states, events, actions),
        0 <= n < states.len(),
        states[n].stage.rank() >= HostStage::Offer.rank(),
    ensures
        paired_with(events, n, states[n].browser_fp, states[n].pin),
    decreases n,
{
    assert(n > 0);
    assert(states[n - 1].steps(events[n - 1], states[n], actions[n - 1]));
    if states[n - 1].stage == HostStage::Handshake {
        assert(events[n - 1] is Paired);
    } else {
        lemma_pin_is_from_pairing(states, events, actions, n - 1);
        let i = choose|i: int|
            0 <= i < n - 1 && #[trigger] events[i] is Paired && events[i]->Paired_0@ == states[n
                - 1].browser_fp && events[i]->Paired_1@ == states[n - 1].pin;
        assert(0 <= i < n && events[i] is Paired);
    }
}

/// Every message of a run goes from the host to the browser that it paired with.
pub proof fn law_messages_go_to_the_browser(
    before: HostView,
    event: HostEvent,
    after: HostView,
    action: HostAction,
)
    requires
        before.steps(event, after, action),
        action is Send,
    ensures
        action->Send_0.from_fp@ == before.local_fp,
        action->Send_0.to_fp@ == before.browser_fp,
        action->Send_0.session_id == before.session_id,
        before.stage.rank() > HostStage::Offer.rank(),
{
}

/// When a run does what. Once the digest is announced, the host connects; once connected, it runs
/// the handshake; once paired, it listens for an offer from the browser, and from nobody else; given
/// one, it binds the socket, answers the offer, registers the local address, and sends the answer,
/// the address and the end of addresses in turn; then the session is driven while addresses come
/// in, until they end, the peer leaves, the connection is closed or time is up; then the session is
/// waited for, what is queued gets to leave, and the run is over.
pub proof fn law_what_a_run_does_when(
    before: HostView,
    event: HostEvent,
    after: HostView,
    action: HostAction,
)
    requires
        before.steps(event, after, action),
    ensures
        ({
            let (stage, e) = (before.stage, event->Signal_0->Message_0);
            let message = event is Signal && event->Signal_0 is Message;
            let offer = message && e.kind == MessageKind::Offer && e.from_fp@ == before.browser_fp;
            let text = vstd::utf8::valid_utf8(e.content());
            let sent = event == HostEvent::Sent(true);
            let last = message && (e.kind == MessageKind::EndOfCandidates || e.kind
                == MessageKind::Bye);
            &&& action is Connect <==> stage == HostStage::Announce && event is Announced
            &&& action is Handshake <==> stage == HostStage::Connect && event
                == HostEvent::Connected(true)
            &&& action is Listen <==> stage == HostStage::Handshake && event is Paired
            &&& action is Bind <==> stage == HostStage::Offer && offer && text
            &&& action is Bridge <==> stage == HostStage::Bind && event is Bound
            &&& action is Register <==> stage == HostStage::Bridge && event is Bridged
                && event->Bridged_0 is Some
            &&& action is Send <==> stage == HostStage::Register && event is Registered
                && event->Registered_0 is Some || sent && (stage == HostStage::SendAnswer || stage
                == HostStage::SendCandidate)
            &&& action is Drive <==> stage == HostStage::SendEnd && sent
            &&& action is AddCandidate <==> stage == HostStage::Pump && message && e.kind
                == MessageKind::Candidate && text
            &&& action is Receive <==> message && (stage == HostStage::Offer && !offer || stage
                == HostStage::Pump && !last && !(e.kind == MessageKind::Candidate && text))
            &&& action is Join <==> stage == HostStage::Pump && (last || event is Signal && (
            event->Signal_0 is Closed || event->Signal_0 is TimedOut))
            &&& action is Flush <==> stage == HostStage::Join && event == HostEvent::Joined(true)
            &&& action == HostAction::Finish(Ok(())) <==> stage == HostStage::Flush && event
                is Flushed
            &&& action is AddCandidate ==> vstd::utf8::encode_utf8(action->AddCandidate_0@)
                == e.content()
        }),
{
}

/// What a run remembers and hands on. The offer and the pin go to the transport as they came in; the
/// answer and the address that the transport gave go to the browser, and then an empty message that
/// ends the addresses.
pub proof fn law_what_a_run_hands_on(
    before: HostView,
    event: HostEvent,
    after: HostView,
    action: HostAction,
)
    requires
        before.steps(event, after, action),
    ensures
        action is Listen ==> after.browser_fp == event->Paired_0@ && after.pin == event->Paired_1@,
        action is Bind ==> vstd::utf8::encode_utf8(after.offer)
            == event->Signal_0->Message_0.content(),
        action is Bridge ==> action->Bridge_0@ == before.offer && action->Bridge_1@ == before.pin,
        action is Register ==> after.answer == event->Bridged_0->0@,
        before.stage == HostStage::Register && action is Send ==> after.candidate
            == event->Registered_0->0@ && action->Send_0.kind == MessageKind::Answer
            && action->Send_0.content() == vstd::utf8::encode_utf8(before.answer),
        before.stage == HostStage::SendAnswer && action is Send ==> action->Send_0.kind
            == MessageKind::Candidate && action->Send_0.content() == vstd::utf8::encode_utf8(
            before.candidate,
        ),
        before.stage == HostStage::SendCandidate && action is Send ==> action->Send_0.kind
            == MessageKind::EndOfCandidates && action->Send_0.content().len() == 0,
        !(action is Listen) ==> after.browser_fp == before.browser_fp && after.pin == before.pin,
        !(action is Bind) ==> after.offer == before.offer,
        !(action is Register) ==> after.answer == before.answer,
        before.stage != HostStage::Register ==> after.candidate == before.candidate,
{
}

/// Each step of a run that fails says which one it was.
pub proof fn law_failed_host_steps_are_named(
    before: HostView,
    event: HostEvent,
    after: HostView,
    action: HostAction,
)
    requires
        before.steps(event, after, action),
    ensures
        ({
            let stage = before.stage;
            let failed = |e: HostError|
                action == HostAction::Finish(Err(e)) && after.stage == HostStage::Failed;
            let silent = event is Signal && !(event->Signal_0 is Message);
            let e = event->Signal_0->Message_0;
            &&& stage == HostStage::Connect && event == HostEvent::Connected(false) ==> failed(
                HostError::Connect,
            )
            &&& stage == HostStage::Handshake && event is NotPaired ==> failed(
                HostError::Handshake(event->NotPaired_0),
            )
            &&& stage == HostStage::Offer && silent ==> failed(
                HostError::Offer(
                    crate::signaling::silence(event->Signal_0, crate::signaling::Awaited::Offer),
                ),
            )
            &&& stage == HostStage::Offer && event is Signal && event->Signal_0 is Message && e.kind
                == MessageKind::Offer && e.from_fp@ == before.browser_fp
                && !vstd::utf8::valid_utf8(e.content()) ==> failed(
                HostError::Offer(SignalingError::OfferNotUtf8),
            )
            &&& stage == HostStage::Bind && event is BadAddress ==> failed(HostError::BindAddress)
            &&& stage == HostStage::Bind && event is NotBound ==> failed(HostError::Bind)
            &&& stage == HostStage::Bridge && event is Bridged && event->Bridged_0 is None
                ==> failed(HostError::Bridge)
            &&& stage == HostStage::Register && event is Registered && event->Registered_0 is None
                ==> failed(HostError::Register)
            &&& stage == HostStage::SendAnswer && event == HostEvent::Sent(false) ==> failed(
                HostError::SendAnswer,
            )
            &&& stage == HostStage::SendCandidate && event == HostEvent::Sent(false) ==> failed(
                HostError::SendCandidate,
            )
            &&& stage == HostStage::SendEnd && event == HostEvent::Sent(false) ==> failed(
                HostError::SendEndOfCandidates,
            )
            &&& stage == HostStage::Pump && event is Signal && event->Signal_0 is Failed ==> failed(
                HostError::Pump,
            )
            &&& stage == HostStage::Join && event == HostEvent::Joined(false) ==> failed(
                HostError::Exchange,
            )
            &&& stage == HostStage::Join && event is Panicked ==> failed(HostError::Panicked)
        }),
{
}

/// A digest of 32 bytes, and no other, is written as the text of a digest.
pub proof fn law_digests_are_written_in_full(digest: Seq<u8>)
    ensures
        is_digest_text(crate::session_id::hex_text(digest)) <==> digest.len() == 32,
{
    crate::session_id::law_hex_text_is_lower_case(digest);
}

} // verus!
