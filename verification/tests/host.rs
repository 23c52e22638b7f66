use std::time::Instant;

use bytes::Bytes;
use streamhaul::host::{
    commit_fingerprint, Commitment, HostAction, HostError, HostEvent, HostRun, LocalPeer,
};
use streamhaul::noise::{NoiseAction, NoiseError, NoiseEvent, NoiseResponder};
use streamhaul::session_id::{hex_encode, parse_session_id, SessionId, SessionIdError};
use streamhaul::signaling::{
    noise_payload, pump_candidates, receive_offer, recv_noise_hello, recv_noise_msg, send_noise,
    text_envelope, Awaited, MessageKind, PumpStep, Received, SignalingEnvelope, SignalingError,
    Wait, NOISE_SUB_HELLO, NOISE_SUB_HOST_STATIC_PUB, NOISE_SUB_MSG,
};

const SESSION: SessionId = SessionId([7; 16]);

fn message(kind: MessageKind, from_fp: &str, payload: &[u8]) -> SignalingEnvelope {
    SignalingEnvelope {
        kind,
        session_id: SESSION,
        from_fp: from_fp.to_owned(),
        to_fp: "host".to_owned(),
        payload: Bytes::copy_from_slice(payload),
    }
}

fn signal(kind: MessageKind, from_fp: &str, payload: &[u8]) -> Received {
    Received::Message(message(kind, from_fp, payload))
}

// ── Signaling ───────────────────────────────────────────────────────────────

#[test]
fn noise_sub_type_wire_values_are_pinned() {
    assert_eq!(NOISE_SUB_HELLO, 0x00, "NOISE_SUB_HELLO wire value changed");
    assert_eq!(
        NOISE_SUB_HOST_STATIC_PUB, 0x01,
        "NOISE_SUB_HOST_STATIC_PUB wire value changed"
    );
    assert_eq!(NOISE_SUB_MSG, 0x02, "NOISE_SUB_MSG wire value changed");
}

#[test]
fn a_hello_makes_the_browser_known() {
    let hello = signal(MessageKind::Noise, "browser", &[NOISE_SUB_HELLO]);
    assert!(matches!(recv_noise_hello(hello), Wait::Got(fp) if fp == "browser"));
    for other in [
        signal(MessageKind::Noise, "browser", &[]),
        signal(MessageKind::Noise, "browser", &[NOISE_SUB_MSG]),
        signal(MessageKind::Offer, "browser", &[NOISE_SUB_HELLO]),
    ] {
        assert!(matches!(recv_noise_hello(other), Wait::Again));
    }
}

#[test]
fn only_the_expected_browser_is_heard() {
    let body = signal(MessageKind::Noise, "browser", &[NOISE_SUB_MSG, 4, 5]);
    assert!(matches!(recv_noise_msg(body, "browser"), Wait::Got(b) if b == [4, 5]));
    let other = signal(MessageKind::Noise, "intruder", &[NOISE_SUB_MSG, 4, 5]);
    assert!(matches!(recv_noise_msg(other, "browser"), Wait::Again));
    let offer = signal(MessageKind::Offer, "browser", "v=0 ä".as_bytes());
    assert!(matches!(receive_offer(offer, "browser"), Wait::Got(s) if s == "v=0 ä"));
    let other = signal(MessageKind::Offer, "intruder", b"v=0");
    assert!(matches!(receive_offer(other, "browser"), Wait::Again));
    let garbled = signal(MessageKind::Offer, "browser", &[0xFF, 0xFE]);
    assert!(matches!(
        receive_offer(garbled, "browser"),
        Wait::Fail(SignalingError::OfferNotUtf8)
    ));
}

#[test]
fn silence_fails_the_step_by_name() {
    let Wait::Fail(e) = recv_noise_hello(Received::TimedOut) else { panic!("no failure") };
    assert_eq!(e.to_text(), "timed out waiting for Noise hello");
    let Wait::Fail(e) = recv_noise_msg(Received::Closed, "b") else { panic!("no failure") };
    assert_eq!(e.to_text(), "signaling connection closed before Noise handshake message");
    let Wait::Fail(e) = receive_offer(Received::Failed, "b") else { panic!("no failure") };
    assert_eq!(e, SignalingError::Failed(Awaited::Offer));
    assert_eq!(e.to_text(), "signaling recv failed (SDP offer)");
    assert_eq!(SignalingError::OfferNotUtf8.to_text(), "offer payload is not UTF-8");
}

#[test]
fn candidates_are_pumped_until_they_end() {
    let add = pump_candidates(signal(MessageKind::Candidate, "b", b"candidate:1"));
    assert!(matches!(add, PumpStep::Add(c) if c == "candidate:1"));
    let garbled = pump_candidates(signal(MessageKind::Candidate, "b", &[0xC0]));
    assert!(matches!(garbled, PumpStep::Ignore));
    assert!(matches!(pump_candidates(signal(MessageKind::Answer, "b", b"")), PumpStep::Ignore));
    for kind in [MessageKind::EndOfCandidates, MessageKind::Bye] {
        assert!(matches!(pump_candidates(signal(kind, "b", b"")), PumpStep::Done));
    }
    assert!(matches!(pump_candidates(Received::Closed), PumpStep::Done));
    assert!(matches!(pump_candidates(Received::TimedOut), PumpStep::Done));
    assert!(matches!(pump_candidates(Received::Failed), PumpStep::Fail));
}

#[test]
fn messages_carry_what_they_are_given() {
    assert_eq!(noise_payload(9, &[1, 2]), vec![9, 1, 2]);
    let m = send_noise(SESSION, "host", "browser", NOISE_SUB_MSG, &[3]);
    assert_eq!(m.kind, MessageKind::Noise);
    assert_eq!((m.from_fp.as_str(), m.to_fp.as_str()), ("host", "browser"));
    assert_eq!(&m.payload[..], &[NOISE_SUB_MSG, 3]);
    let got = recv_noise_msg(Received::Message(m), "host");
    assert!(matches!(got, Wait::Got(b) if b == [3]));
    let t = text_envelope(MessageKind::Answer, SESSION, "host", "browser", "sdp ß");
    assert_eq!(&t.payload[..], "sdp ß".as_bytes());
    assert_eq!(t.session_id, SESSION);
}

// ── Handshake ───────────────────────────────────────────────────────────────

fn pair(mut responder: NoiseResponder, pin: Option<[u8; 32]>) -> (Vec<SignalingEnvelope>, NoiseAction) {
    let mut sent = Vec::new();
    let mut reads = 0;
    assert!(matches!(responder.start(), NoiseAction::Listen));
    let mut action =
        responder.step(NoiseEvent::Signal(signal(MessageKind::Noise, "browser", &[NOISE_SUB_HELLO])));
    loop {
        let event = match action {
            NoiseAction::Send(m) => {
                sent.push(m);
                NoiseEvent::Sent(true)
            }
            NoiseAction::Build => NoiseEvent::Built(true),
            NoiseAction::Listen => {
                let body = [NOISE_SUB_MSG, 10 + reads];
                NoiseEvent::Signal(signal(MessageKind::Noise, "browser", &body))
            }
            NoiseAction::Read(body) => {
                assert_eq!(body, vec![10 + reads]);
                reads += 1;
                NoiseEvent::Read(true)
            }
            NoiseAction::Write => NoiseEvent::Written(Some(vec![42])),
            NoiseAction::CheckFinished => NoiseEvent::Finished(true),
            NoiseAction::Complete => NoiseEvent::Completed(pin),
            end => return (sent, end),
        };
        action = responder.step(event);
    }
}

#[test]
fn a_handshake_ends_with_the_committed_pin() {
    let mut secret = [0u8; 32];
    secret[0] = 9;
    let public = x25519_dalek::x25519(secret, x25519_dalek::X25519_BASEPOINT_BYTES);
    assert_eq!(
        hex_encode(&public),
        "422c8e7a6227d7bca1350b3e2bb7279f7897b87bb6854b783c60e80311ae3079"
    );
    let responder = NoiseResponder::with_secret(SESSION, "host", secret);
    let (sent, end) = pair(responder, Some([5; 32]));
    assert!(matches!(end, NoiseAction::Done(fp, pin) if fp == "browser" && pin == [5; 32]));
    assert_eq!(sent.len(), 2);
    assert_eq!(sent[0].payload[0], NOISE_SUB_HOST_STATIC_PUB);
    assert_eq!(&sent[0].payload[1..], &public);
    assert_eq!(sent[0].to_fp, "browser");
    assert_eq!(&sent[1].payload[..], &[NOISE_SUB_MSG, 42]);
}

#[test]
fn an_ignored_message_goes_on_with_the_same_wait() {
    let mut responder = NoiseResponder::with_public(SESSION, "host", [1; 32]);
    assert!(matches!(responder.start(), NoiseAction::Listen));
    let stray = || NoiseEvent::Signal(signal(MessageKind::Offer, "browser", b"sdp"));
    assert!(matches!(responder.step(stray()), NoiseAction::Receive));
    assert!(matches!(responder.step(stray()), NoiseAction::Receive));
    let hello = signal(MessageKind::Noise, "browser", &[NOISE_SUB_HELLO]);
    assert!(matches!(responder.step(NoiseEvent::Signal(hello)), NoiseAction::Send(_)));
    assert!(matches!(responder.step(NoiseEvent::Sent(true)), NoiseAction::Build));
    assert!(matches!(responder.step(NoiseEvent::Built(true)), NoiseAction::Listen));
    assert!(matches!(responder.step(stray()), NoiseAction::Receive));
    let intruder = signal(MessageKind::Noise, "intruder", &[NOISE_SUB_MSG, 1]);
    assert!(matches!(responder.step(NoiseEvent::Signal(intruder)), NoiseAction::Receive));
    let first = signal(MessageKind::Noise, "browser", &[NOISE_SUB_MSG, 1]);
    assert!(matches!(responder.step(NoiseEvent::Signal(first)), NoiseAction::Read(_)));
    assert!(matches!(responder.step(NoiseEvent::Read(true)), NoiseAction::Write));
    assert!(matches!(responder.step(NoiseEvent::Written(Some(vec![2]))), NoiseAction::Send(_)));
    assert!(matches!(responder.step(NoiseEvent::Sent(true)), NoiseAction::Listen));
    assert!(matches!(responder.step(stray()), NoiseAction::Receive));
}

#[test]
fn fresh_secrets_differ_and_match_their_public_keys() {
    let (one, secret) = NoiseResponder::generate(SESSION, "host");
    let (_, other) = NoiseResponder::generate(SESSION, "host");
    assert_ne!(secret, other);
    let (sent, _) = pair(one, None);
    let public = x25519_dalek::x25519(secret, x25519_dalek::X25519_BASEPOINT_BYTES);
    assert_eq!(&sent[0].payload[1..], &public);
}

#[test]
fn a_handshake_without_a_pin_fails() {
    let responder = NoiseResponder::with_public(SESSION, "host", [1; 32]);
    let (_, end) = pair(responder, None);
    let NoiseAction::Fail(e) = end else { panic!("no failure") };
    assert_eq!(e, NoiseError::NoPin);
    assert_eq!(e.to_text(), "browser BindCert carries no DTLS fingerprint (downgrade)");
}

#[test]
fn every_step_of_a_handshake_can_fail() {
    let say = |events: Vec<NoiseEvent>| {
        let mut responder = NoiseResponder::with_public(SESSION, "host", [1; 32]);
        let hello = signal(MessageKind::Noise, "browser", &[NOISE_SUB_HELLO]);
        let mut action = responder.step(NoiseEvent::Signal(hello));
        for event in events {
            action = responder.step(event);
        }
        match action {
            NoiseAction::Fail(e) => e.to_text(),
            other => panic!("no failure: {other:?}"),
        }
    };
    let msg = || NoiseEvent::Signal(signal(MessageKind::Noise, "browser", &[NOISE_SUB_MSG, 1]));
    let to_first = || vec![NoiseEvent::Sent(true), NoiseEvent::Built(true)];
    let to_third = || {
        let mut v = to_first();
        v.extend([msg(), NoiseEvent::Read(true), NoiseEvent::Written(Some(vec![])), NoiseEvent::Sent(true)]);
        v
    };
    let then = |mut v: Vec<NoiseEvent>, more: Vec<NoiseEvent>| {
        v.extend(more);
        say(v)
    };
    assert_eq!(say(vec![NoiseEvent::Sent(false)]), "failed to send host static pub");
    assert_eq!(
        say(vec![NoiseEvent::Sent(true), NoiseEvent::Built(false)]),
        "failed to construct XK responder"
    );
    assert_eq!(
        then(to_first(), vec![NoiseEvent::Signal(Received::TimedOut)]),
        "timed out waiting for Noise handshake message"
    );
    assert_eq!(then(to_first(), vec![msg(), NoiseEvent::Read(false)]), "failed to read Noise msg0");
    assert_eq!(
        then(to_first(), vec![msg(), NoiseEvent::Read(true), NoiseEvent::Written(None)]),
        "failed to write Noise msg1"
    );
    assert_eq!(then(to_third(), vec![msg(), NoiseEvent::Read(false)]), "failed to read Noise msg2");
    assert_eq!(
        then(to_third(), vec![msg(), NoiseEvent::Read(true), NoiseEvent::Finished(false)]),
        "Noise handshake did not finish after 3 messages"
    );
    assert_eq!(
        then(
            to_third(),
            vec![msg(), NoiseEvent::Read(true), NoiseEvent::Finished(true), NoiseEvent::NotCompleted]
        ),
        "Noise complete (first pairing) failed"
    );
    assert_eq!(say(vec![NoiseEvent::Finished(true)]), "handshake event out of order");
}

// ── Fingerprints and session identifiers ────────────────────────────────────

#[test]
fn session_ids_are_read_and_written() {
    let id = parse_session_id("00112233445566778899aAbBcCdDeEfF").unwrap();
    assert_eq!(id.0[1], 0x11);
    assert_eq!(id.0[10], 0xAA);
    assert_eq!(hex_encode(&id.0), "00112233445566778899aabbccddeeff");
    assert_eq!(parse_session_id(&hex_encode(&id.0)).unwrap(), id);
    assert_eq!(hex_encode(&[]), "");
}

#[test]
fn malformed_session_ids_are_refused() {
    let refused = parse_session_id("abc").unwrap_err();
    assert_eq!(refused, SessionIdError::Length(3));
    assert_eq!(refused.to_text(), "session-id must be 32 hex chars, got 3 chars");
    let mut text = "0".repeat(30);
    text.push_str("0g");
    assert_eq!(
        parse_session_id(&text).unwrap_err().to_text(),
        "invalid hex in session-id: 0g"
    );
    let signed = format!("+1{}", "0".repeat(30));
    assert!(matches!(parse_session_id(&signed), Err(SessionIdError::InvalidHex(b'+', b'1'))));
    let wide = format!("ä{}", "0".repeat(30));
    assert_eq!(parse_session_id(&wide).unwrap_err().to_text(), "invalid hex in session-id: ä");
    let split = format!("0ä{}", "0".repeat(29));
    assert_eq!(parse_session_id(&split).unwrap_err().to_text(), "invalid UTF-8 in session-id");
    let broad = format!("€{}", "0".repeat(29));
    assert_eq!(parse_session_id(&broad).unwrap_err().to_text(), "invalid UTF-8 in session-id");
}

#[test]
fn only_digests_of_the_right_length_are_committed_to() {
    let c = commit_fingerprint(&[0xAB; 32]).unwrap();
    assert_eq!(c.hex, "ab".repeat(32));
    assert_eq!(c.digest, [0xAB; 32]);
    let e = commit_fingerprint(&[1; 20]).unwrap_err();
    assert_eq!(e, HostError::FingerprintLength(40));
    assert_eq!(
        e.to_text(),
        "unexpected fingerprint length (expected 64 hex chars, got 40)"
    );
}

#[test]
fn every_peer_has_a_certificate_of_its_own() {
    let one = LocalPeer::new(Instant::now()).unwrap();
    let other = LocalPeer::new(Instant::now()).unwrap();
    assert_eq!(one.commitment().hex, hex_encode(&one.commitment().digest));
    assert_eq!(one.commitment().hex.len(), 64);
    assert!(one.commitment().hex.bytes().all(|b| matches!(b, b'0'..=b'9' | b'a'..=b'f')));
    assert_ne!(one.commitment().digest, other.commitment().digest);
    let digest = one.commitment().digest;
    let mut rtc = one.into_rtc();
    assert_eq!(rtc.direct_api().local_dtls_fingerprint().bytes, digest.to_vec());
}

// ── A host's run ────────────────────────────────────────────────────────────

fn local() -> Commitment {
    commit_fingerprint(&[0x0F; 32]).unwrap()
}

fn announced() -> HostRun {
    let (mut run, first) = HostRun::start(SESSION, &local());
    assert!(matches!(first, HostAction::Announce(hex) if hex == "0f".repeat(32)));
    let connect = run.step(HostEvent::Announced);
    assert!(matches!(connect, HostAction::Connect(fp) if fp == local().hex));
    run
}

fn run_to_pump(pin: [u8; 32]) -> (HostRun, Vec<SignalingEnvelope>) {
    let mut run = announced();
    let shake = run.step(HostEvent::Connected(true));
    assert!(matches!(shake, HostAction::Handshake(fp, d) if fp == local().hex && d == [0x0F; 32]));
    assert!(matches!(run.step(HostEvent::Paired("browser".to_owned(), pin)), HostAction::Listen));
    let stray = signal(MessageKind::Offer, "intruder", b"sdp of another");
    assert!(matches!(run.step(HostEvent::Signal(stray)), HostAction::Receive));
    let offer = signal(MessageKind::Offer, "browser", b"offer sdp");
    assert!(matches!(run.step(HostEvent::Signal(offer)), HostAction::Bind));
    let HostAction::Bridge(sdp, accepted) = run.step(HostEvent::Bound) else {
        panic!("no bridge");
    };
    assert_eq!(sdp, "offer sdp");
    assert_eq!(accepted, pin);
    let answer = HostEvent::Bridged(Some("answer sdp".to_owned()));
    assert!(matches!(run.step(answer), HostAction::Register));
    let mut sent = Vec::new();
    let mut action = run.step(HostEvent::Registered(Some("candidate:9".to_owned())));
    while let HostAction::Send(m) = action {
        sent.push(m);
        action = run.step(HostEvent::Sent(true));
    }
    assert!(matches!(action, HostAction::Drive));
    (run, sent)
}

#[test]
fn a_run_goes_through_all_stages() {
    let (mut run, sent) = run_to_pump([3; 32]);
    let kinds: Vec<MessageKind> = sent.iter().map(|m| m.kind).collect();
    assert_eq!(
        kinds,
        vec![MessageKind::Answer, MessageKind::Candidate, MessageKind::EndOfCandidates]
    );
    assert_eq!(&sent[0].payload[..], b"answer sdp");
    assert_eq!(&sent[1].payload[..], b"candidate:9");
    assert!(sent[2].payload.is_empty());
    assert!(sent.iter().all(|m| m.to_fp == "browser" && m.from_fp == local().hex));
    let candidate = signal(MessageKind::Candidate, "browser", b"candidate:2");
    let add = run.step(HostEvent::Signal(candidate));
    assert!(matches!(add, HostAction::AddCandidate(c) if c == "candidate:2"));
    let end = signal(MessageKind::EndOfCandidates, "browser", b"");
    assert!(matches!(run.step(HostEvent::Signal(end)), HostAction::Join));
    assert!(matches!(run.step(HostEvent::Joined(true)), HostAction::Flush));
    assert!(matches!(run.step(HostEvent::Flushed), HostAction::Finish(Ok(()))));
}

#[test]
fn a_run_fails_where_its_steps_do() {
    let (mut run, _) = run_to_pump([3; 32]);
    let failed = run.step(HostEvent::Signal(Received::Failed));
    assert!(matches!(failed, HostAction::Finish(Err(HostError::Pump))));
    let (mut run, _) = run_to_pump([3; 32]);
    run.step(HostEvent::Signal(Received::TimedOut));
    assert!(matches!(run.step(HostEvent::Panicked), HostAction::Finish(Err(HostError::Panicked))));
    let (mut run, _) = run_to_pump([3; 32]);
    run.step(HostEvent::Signal(Received::Closed));
    let failed = run.step(HostEvent::Joined(false));
    assert!(matches!(failed, HostAction::Finish(Err(HostError::Exchange))));

    let mut run = announced();
    let failed = run.step(HostEvent::Connected(false));
    assert!(matches!(failed, HostAction::Finish(Err(HostError::Connect))));
    let mut run = announced();
    run.step(HostEvent::Connected(true));
    let HostAction::Finish(Err(e)) = run.step(HostEvent::NotPaired(NoiseError::NoPin)) else {
        panic!("no failure");
    };
    assert_eq!(
        e.to_text(),
        "identity-bound Noise handshake failed: browser BindCert carries no DTLS fingerprint \
         (downgrade)"
    );
    let mut run = announced();
    let failed = run.step(HostEvent::Bound);
    assert!(matches!(failed, HostAction::Finish(Err(HostError::OutOfOrder))));
}

#[test]
fn the_digest_is_announced_before_all_else_and_once() {
    let peer = LocalPeer::new(Instant::now()).unwrap();
    let (mut run, first) = HostRun::start(SESSION, peer.commitment());
    assert!(matches!(first, HostAction::Announce(hex) if hex == peer.commitment().hex));
    assert!(matches!(run.step(HostEvent::Announced), HostAction::Connect(_)));
    let again = run.step(HostEvent::Announced);
    assert!(matches!(again, HostAction::Finish(Err(HostError::OutOfOrder))));

    let (mut run, _) = HostRun::start(SESSION, &local());
    let early = run.step(HostEvent::Connected(true));
    assert!(matches!(early, HostAction::Finish(Err(HostError::OutOfOrder))));
    let late = run.step(HostEvent::Announced);
    assert!(matches!(late, HostAction::Finish(Err(HostError::OutOfOrder))));
}

#[test]
fn an_ignored_signal_goes_on_with_the_same_wait() {
    let (mut run, _) = run_to_pump([3; 32]);
    let stray = signal(MessageKind::Noise, "browser", &[NOISE_SUB_HELLO]);
    assert!(matches!(run.step(HostEvent::Signal(stray)), HostAction::Receive));
    let garbled = signal(MessageKind::Candidate, "browser", &[0xFF]);
    assert!(matches!(run.step(HostEvent::Signal(garbled)), HostAction::Receive));
}

#[test]
fn setting_up_the_transport_can_fail() {
    let at_bind = || {
        let mut run = announced();
        run.step(HostEvent::Connected(true));
        run.step(HostEvent::Paired("browser".to_owned(), [1; 32]));
        run.step(HostEvent::Signal(signal(MessageKind::Offer, "browser", b"o")));
        run
    };
    let end = |events: Vec<HostEvent>| {
        let mut run = at_bind();
        let mut last = None;
        for event in events {
            last = Some(run.step(event));
        }
        match last {
            Some(HostAction::Finish(Err(e))) => e,
            other => panic!("no failure: {other:?}"),
        }
    };
    assert_eq!(end(vec![HostEvent::BadAddress]).to_text(), "invalid --bind address");
    assert_eq!(end(vec![HostEvent::NotBound]).to_text(), "failed to bind UDP socket");
    assert_eq!(end(vec![HostEvent::Bound, HostEvent::Bridged(None)]), HostError::Bridge);
    let bridged = || HostEvent::Bridged(Some("a".to_owned()));
    let registered = || HostEvent::Registered(Some("c".to_owned()));
    assert_eq!(
        end(vec![HostEvent::Bound, bridged(), HostEvent::Registered(None)]),
        HostError::Register
    );
    assert_eq!(
        end(vec![HostEvent::Bound, bridged(), registered(), HostEvent::Sent(false)]),
        HostError::SendAnswer
    );
    assert_eq!(
        end(vec![
            HostEvent::Bound,
            bridged(),
            registered(),
            HostEvent::Sent(true),
            HostEvent::Sent(false)
        ]),
        HostError::SendCandidate
    );
    assert_eq!(
        end(vec![
            HostEvent::Bound,
            bridged(),
            registered(),
            HostEvent::Sent(true),
            HostEvent::Sent(true),
            HostEvent::Sent(false)
        ]),
        HostError::SendEndOfCandidates
    );
}
