//! The signaling conversation: which messages a step waits for, and which are sent.
use bytes::Bytes;
use vstd::prelude::*;

use crate::buffer::{as_slice, from_vec};
use crate::raw::push_all;
use crate::session_id::SessionId;
use crate::text::{same_text, utf8_bytes, utf8_text};

verus! {

/// Seconds that each step waits for its message.
pub const SIGNALING_STEP_TIMEOUT_SECS: u64 = 30;

/// First byte of the message by which the browser makes itself known.
pub const NOISE_SUB_HELLO: u8 = 0x00;

/// First byte of the message that carries the host's static public key.
pub const NOISE_SUB_HOST_STATIC_PUB: u8 = 0x01;

/// First byte of a handshake message.
pub const NOISE_SUB_MSG: u8 = 0x02;

/// What a signaling message is about.
#[derive(Debug, Clone, Copy, PartialEq, Eq, Hash, Structural)]
pub enum MessageKind {
    /// Handshake.
    Noise,
    /// Session description from the browser.
    Offer,
    /// Session description from the host.
    Answer,
    /// An address to try.
    Candidate,
    /// There are no more addresses.
    EndOfCandidates,
    /// The peer leaves.
    Bye,
}

/// A signaling message.
#[derive(Debug, PartialEq, Eq)]
pub struct SignalingEnvelope {
    /// What it is about.
    pub kind: MessageKind,
    /// Session.
    pub session_id: SessionId,
    /// Fingerprint of the sender.
    pub from_fp: String,
    /// Fingerprint of the receiver.
    pub to_fp: String,
    /// Content.
    pub payload: Bytes,
}

impl SignalingEnvelope {
    /// The content.
    pub open spec fn content(self) -> Seq<u8> {
        crate::buffer::content(self.payload)
    }

    /// The message has exactly these parts.
    pub open spec fn holds(
        self,
        kind: MessageKind,
        session_id: SessionId,
        from_fp: Seq<char>,
        to_fp: Seq<char>,
        content: Seq<u8>,
    ) -> bool {
        &&& self.kind == kind
        &&& self.session_id == session_id
        &&& self.from_fp@ == from_fp
        &&& self.to_fp@ == to_fp
        &&& self.content() == content
    }
}

/// What came in while a step waited.
#[derive(Debug)]
pub enum Received {
    /// A message.
    Message(SignalingEnvelope),
    /// The connection was closed.
    Closed,
    /// Receiving failed.
    Failed,
    /// The step ran out of time.
    TimedOut,
}

/// What a step waits for.
#[derive(Debug, Clone, Copy, PartialEq, Eq, Structural)]
pub enum Awaited {
    /// The browser's first message.
    NoiseHello,
    /// A handshake message.
    NoiseMessage,
    /// The session description.
    Offer,
}

impl Awaited {
    /// What it is called.
    pub open spec fn label(self) -> Seq<char> {
        match self {
            Awaited::NoiseHello => "Noise hello"@,
            Awaited::NoiseMessage => "Noise handshake message"@,
            Awaited::Offer => "SDP offer"@,
        }
    }

    /// What it is called.
    pub fn name(self) -> (r: &'static str)
        ensures
            r@ == self.label(),
    {
        match self {
            Awaited::NoiseHello => "Noise hello",
            Awaited::NoiseMessage => "Noise handshake message",
            Awaited::Offer => "SDP offer",
        }
    }
}

/// A step did not get what it waited for.
#[derive(Debug, Clone, Copy, PartialEq, Eq, Structural)]
pub enum SignalingError {
    /// Receiving failed.
    Failed(Awaited),
    /// The connection was closed.
    Closed(Awaited),
    /// It ran out of time.
    TimedOut(Awaited),
    /// The session description is not text.
    OfferNotUtf8,
}

impl SignalingError {
    /// What the error says.
    pub open spec fn text(self) -> Seq<char> {
        match self {
            SignalingError::Failed(a) => "signaling recv failed ("@ + a.label() + ")"@,
            SignalingError::Closed(a) => "signaling connection closed before "@ + a.label(),
            SignalingError::TimedOut(a) => "timed out waiting for "@ + a.label(),
            SignalingError::OfferNotUtf8 => "offer payload is not UTF-8"@,
        }
    }

    /// What the error says.
    pub fn to_text(&self) -> (r: String)
        ensures
            r@ == self.text(),
    {
        match self {
            SignalingError::Failed(a) => {
                let mut s = "signaling recv failed (".to_owned();
                s.append(a.name());
                s.append(")");
                s
            },
            SignalingError::Closed(a) => {
                let mut s = "signaling connection closed before ".to_owned();
                s.append(a.name());
                s
            },
            SignalingError::TimedOut(a) => {
                let mut s = "timed out waiting for ".to_owned();
                s.append(a.name());
                s
            },
            SignalingError::OfferNotUtf8 => "offer payload is not UTF-8".to_owned(),
        }
    }
}

/// What a step does next.
#[derive(Debug)]
pub enum Wait<T> {
    /// Wait on; what came in is ignored.
    Again,
    /// The step has what it waited for.
    Got(T),
    /// The step failed.
    Fail(SignalingError),
}

/// Why a step fails when no message came in.
pub open spec fn silence(event: Received, what: Awaited) -> SignalingError {
    match event {
        Received::Closed => SignalingError::Closed(what),
        Received::TimedOut => SignalingError::TimedOut(what),
        _ => SignalingError::Failed(what),
    }
}

/// The message makes the browser known.
pub open spec fn is_hello(e: SignalingEnvelope) -> bool {
    e.kind == MessageKind::Noise && e.content().len() > 0 && e.content()[0] == NOISE_SUB_HELLO
}

/// The message is a handshake message from `from_fp`.
pub open spec fn is_noise_message(e: SignalingEnvelope, from_fp: Seq<char>) -> bool {
    e.kind == MessageKind::Noise && e.from_fp@ == from_fp && e.content().len() > 0 && e.content()[0]
        == NOISE_SUB_MSG
}

/// The message is a session description from `from_fp`.
pub open spec fn is_offer(e: SignalingEnvelope, from_fp: Seq<char>) -> bool {
    e.kind == MessageKind::Offer && e.from_fp@ == from_fp
}

/// Wait for the browser to make itself known; gives its fingerprint.
pub fn recv_noise_hello(event: Received) -> (r: Wait<String>)
    ensures
        match event {
            Received::Message(e) => if is_hello(e) {
                r == Wait::Got(e.from_fp)
            } else {
                r is Again
            },
            _ => r == Wait::<String>::Fail(silence(event, Awaited::NoiseHello)),
        },
{
    match event {
        Received::Message(e) => {
            let content: &[u8] = as_slice(&e.payload);
            if e.kind == MessageKind::Noise && content.len() > 0 && content[0] == NOISE_SUB_HELLO {
                Wait::Got(e.from_fp)
            } else {
                Wait::Again
            }
        },
        Received::Closed => Wait::Fail(SignalingError::Closed(Awaited::NoiseHello)),
        Received::Failed => Wait::Fail(SignalingError::Failed(Awaited::NoiseHello)),
        Received::TimedOut => Wait::Fail(SignalingError::TimedOut(Awaited::NoiseHello)),
    }
}

/// Wait for a handshake message from `expected_fp`; gives its body.
pub fn recv_noise_msg(event: Received, expected_fp: &str) -> (r: Wait<Vec<u8>>)
    ensures
        match event {
            Received::Message(e) => if is_noise_message(e, expected_fp@) {
                r matches Wait::Got(body) && body@ == e.content().skip(1)
            } else {
                r is Again
            },
            _ => r == Wait::<Vec<u8>>::Fail(silence(event, Awaited::NoiseMessage)),
        },
{
    match event {
        Received::Message(e) => {
            let content: &[u8] = as_slice(&e.payload);
            if e.kind == MessageKind::Noise && same_text(e.from_fp.as_str(), expected_fp)
                && content.len() > 0 && content[0] == NOISE_SUB_MSG {
                let mut body: Vec<u8> = Vec::new();
                push_all(&mut body, vstd::slice::slice_subrange(content, 1, content.len()));
                assert(body@ =~= e.content().skip(1));
                Wait::Got(body)
            } else {
                Wait::Again
            }
        },
        Received::Closed => Wait::Fail(SignalingError::Closed(Awaited::NoiseMessage)),
        Received::Failed => Wait::Fail(SignalingError::Failed(Awaited::NoiseMessage)),
        Received::TimedOut => Wait::Fail(SignalingError::TimedOut(Awaited::NoiseMessage)),
    }
}

/// Wait for the session description from `expected_fp`; gives its text.
pub fn receive_offer(event: Received, expected_fp: &str) -> (r: Wait<String>)
    ensures
        match event {
            Received::Message(e) => if !is_offer(e, expected_fp@) {
                r is Again
            } else if vstd::utf8::valid_utf8(e.content()) {
                r matches Wait::Got(s) && vstd::utf8::encode_utf8(s@) == e.content()
            } else {
                r == Wait::<String>::Fail(SignalingError::OfferNotUtf8)
            },
            _ => r == Wait::<String>::Fail(silence(event, Awaited::Offer)),
        },
{
    match event {
        Received::Message(e) => {
            if e.kind == MessageKind::Offer && same_text(e.from_fp.as_str(), expected_fp) {
                let mut content: Vec<u8> = Vec::new();
                push_all(&mut content, as_slice(&e.payload));
                assert(content@ =~= e.content());
                match utf8_text(content) {
                    Some(s) => Wait::Got(s),
                    None => Wait::Fail(SignalingError::OfferNotUtf8),
                }
            } else {
                Wait::Again
            }
        },
        Received::Closed => Wait::Fail(SignalingError::Closed(Awaited::Offer)),
        Received::Failed => Wait::Fail(SignalingError::Failed(Awaited::Offer)),
        Received::TimedOut => Wait::Fail(SignalingError::TimedOut(Awaited::Offer)),
    }
}

/// What to do with what came in while candidates are pumped.
#[derive(Debug)]
pub enum PumpStep {
    /// Wait on; what came in is ignored.
    Ignore,
    /// Hand the candidate to the transport, and wait on whether or not it takes it.
    Add(String),
    /// There is no more to come.
    Done,
    /// Receiving failed.
    Fail,
}

/// Pump candidates: until they end, the peer leaves, the connection is closed, or time is up.
/// Candidates that are not text are ignored.
pub fn pump_candidates(event: Received) -> (r: PumpStep)
    ensures
        match event {
            Received::Message(e) => match e.kind {
                MessageKind::Candidate => if vstd::utf8::valid_utf8(e.content()) {
                    r matches PumpStep::Add(s) && vstd::utf8::encode_utf8(s@) == e.content()
                } else {
                    r is Ignore
                },
                MessageKind::EndOfCandidates | MessageKind::Bye => r is Done,
                _ => r is Ignore,
            },
            Received::Closed | Received::TimedOut => r is Done,
            Received::Failed => r is Fail,
        },
{
    match event {
        Received::Message(e) => match e.kind {
            MessageKind::Candidate => {
                let mut content: Vec<u8> = Vec::new();
                push_all(&mut content, as_slice(&e.payload));
                assert(content@ =~= e.content());
                match utf8_text(content) {
                    Some(s) => PumpStep::Add(s),
                    None => PumpStep::Ignore,
                }
            },
            MessageKind::EndOfCandidates | MessageKind::Bye => PumpStep::Done,
            _ => PumpStep::Ignore,
        },
        Received::Closed => PumpStep::Done,
        Received::TimedOut => PumpStep::Done,
        Received::Failed => PumpStep::Fail,
    }
}

/// A handshake payload: a sub-type and a body.
pub fn noise_payload(sub_type: u8, body: &[u8]) -> (r: Vec<u8>)
    ensures
        r@ == seq![sub_type] + body@,
{
    let mut payload: Vec<u8> = Vec::new();
    payload.push(sub_type);
    push_all(&mut payload, body);
    assert(payload@ =~= seq![sub_type] + body@);
    payload
}

/// A handshake message.
pub fn send_noise(
    session_id: SessionId,
    from_fp: &str,
    to_fp: &str,
    sub_type: u8,
    body: &[u8],
) -> (r: SignalingEnvelope)
    ensures
        r.holds(MessageKind::Noise, session_id, from_fp@, to_fp@, seq![sub_type] + body@),
{
    SignalingEnvelope {
        kind: MessageKind::Noise,
        session_id,
        from_fp: from_fp.to_owned(),
        to_fp: to_fp.to_owned(),
        payload: from_vec(noise_payload(sub_type, body)),
    }
}

/// A message whose content is text.
pub fn text_envelope(
    kind: MessageKind,
    session_id: SessionId,
    from_fp: &str,
    to_fp: &str,
    text: &str,
) -> (r: SignalingEnvelope)
    ensures
        r.holds(kind, session_id, from_fp@, to_fp@, vstd::utf8::encode_utf8(text@)),
{
    SignalingEnvelope {
        kind,
        session_id,
        from_fp: from_fp.to_owned(),
        to_fp: to_fp.to_owned(),
        payload: from_vec(utf8_bytes(text)),
    }
}

/// Only the browser that the handshake began with is listened to: messages from others are ignored.
pub proof fn law_others_are_ignored(e: SignalingEnvelope, expected_fp: Seq<char>)
    requires
        e.from_fp@ != expected_fp,
    ensures
        !is_noise_message(e, expected_fp),
        !is_offer(e, expected_fp),
{
}

/// What one side sends as a handshake message, the other side receives as its body.
pub proof fn law_noise_message_roundtrip(
    e: SignalingEnvelope,
    session_id: SessionId,
    from_fp: Seq<char>,
    to_fp: Seq<char>,
    body: Seq<u8>,
)
    requires
        e.holds(MessageKind::Noise, session_id, from_fp, to_fp, seq![NOISE_SUB_MSG] + body),
    ensures
        is_noise_message(e, from_fp),
        e.content().skip(1) == body,
{
    assert((seq![NOISE_SUB_MSG] + body).skip(1) =~= body);
}

/// What a step makes of a message goes by its kind, its sender and its first byte alone: 0 in a
/// handshake message makes the browser known, 2 marks a message of the handshake proper.
pub proof fn law_what_a_message_is(e: SignalingEnvelope, from_fp: Seq<char>)
    ensures
        is_hello(e) <==> e.kind == MessageKind::Noise && e.content().len() > 0 && e.content()[0]
            == 0,
        is_noise_message(e, from_fp) <==> e.kind == MessageKind::Noise && e.from_fp@ == from_fp
            && e.content().len() > 0 && e.content()[0] == 2,
        is_offer(e, from_fp) <==> e.kind == MessageKind::Offer && e.from_fp@ == from_fp,
{
}

/// A step that is left without a message says what it waited for, and whether the connection was
/// closed, time ran out or receiving failed.
pub proof fn law_silence_is_reported(what: Awaited)
    ensures
        silence(Received::Closed, what) == SignalingError::Closed(what),
        silence(Received::TimedOut, what) == SignalingError::TimedOut(what),
        silence(Received::Failed, what) == SignalingError::Failed(what),
{
}

/// A message that was made has exactly the parts that it was made of.
pub proof fn law_messages_hold_their_parts(
    e: SignalingEnvelope,
    kind: MessageKind,
    session_id: SessionId,
    from_fp: Seq<char>,
    to_fp: Seq<char>,
    content: Seq<u8>,
)
    requires
        e.holds(kind, session_id, from_fp, to_fp, content),
    ensures
        e.kind == kind,
        e.session_id == session_id,
        e.from_fp@ == from_fp,
        e.to_fp@ == to_fp,
        e.content() == content,
{
}

} // verus!
