use rml_rtmp::handshake::{Handshake, HandshakeProcessResult, PeerType};
use rml_rtmp::sessions::{ClientSession, ClientSessionConfig, ClientSessionEvent, ClientSessionResult};
use rtmp_relay::codec::{HandshakeStep, Peer};
use rtmp_relay::pipe::{Action, Phase, Server, ServiceRegistry};
use rtmp_relay::relay::{HandshakeAction, Handshaker};

/// Runs a server-role handshake against a real client, handing the client's final bytes
/// followed by `extra` in pieces of the given sizes; returns the bytes the handshake left.
fn remaining_after(extra: &[u8], pieces: &[usize]) -> Vec<u8> {
    let mut client = Handshake::new(PeerType::Client);
    let mut server = Handshaker::new(Peer::Server);
    let c01 = client.generate_outbound_p0_and_p1().unwrap();
    let mut s012 = Vec::new();
    for chunk in c01.chunks(500) {
        match server.step(chunk).ok().unwrap() {
            HandshakeStep::InProgress { response } => s012.extend(response),
            HandshakeStep::Completed { .. } => panic!("completed too early"),
        }
    }
    let c2 = match client.process_bytes(&s012).unwrap() {
        HandshakeProcessResult::Completed { response_bytes, .. } => response_bytes,
        HandshakeProcessResult::InProgress { response_bytes } => response_bytes,
    };
    let mut input = c2.clone();
    input.extend_from_slice(extra);
    let mut at = 0;
    for (n, size) in pieces.iter().enumerate() {
        let end = if n + 1 == pieces.len() { input.len() } else { at + size };
        match server.step(&input[at..end]).ok().unwrap() {
            HandshakeStep::Completed { remaining, .. } => {
                assert_eq!(end, input.len());
                return remaining;
            },
            HandshakeStep::InProgress { .. } => {},
        }
        at = end;
    }
    panic!("the handshake did not complete");
}

#[test]
fn handshake_remaining_bytes_independent_of_chunking() {
    let extra = vec![9u8, 8, 7, 6, 5];
    let whole = remaining_after(&extra, &[0]);
    assert_eq!(whole, extra);
    assert_eq!(remaining_after(&extra, &[100, 0]), extra);
    assert_eq!(remaining_after(&extra, &[1, 1, 1, 700, 0]), extra);
    assert_eq!(remaining_after(&extra, &[1535, 0]), extra);
}

#[test]
fn handshake_rejects_bad_version() {
    let mut server = Handshaker::new(Peer::Server);
    assert!(server.step(&[6u8, 0, 0, 0]).is_err());
}

#[test]
fn client_handshake_opens_with_version_byte() {
    let mut client = Handshaker::new(Peer::Client);
    let opening = client.opening().ok().unwrap();
    assert_eq!(opening.len(), 1537);
    assert_eq!(opening[0], 3);
}

#[test]
fn bytes_after_handshake_reach_the_session() {
    let mut names = ServiceRegistry::new();
    names.register("live".to_string());
    let mut server: Server<u32> = Server::new(names);
    let mut client = Handshake::new(PeerType::Client);
    server.receive(&client.generate_outbound_p0_and_p1().unwrap());
    let mut s012 = Vec::new();
    loop {
        match server.poll() {
            Action::Send(b) => s012.extend(b),
            Action::Continue => {},
            _ => break,
        }
    }
    let c2 = match client.process_bytes(&s012).unwrap() {
        HandshakeProcessResult::Completed { response_bytes, .. } => response_bytes,
        HandshakeProcessResult::InProgress { response_bytes } => response_bytes,
    };
    let (mut session, _) = ClientSession::new(ClientSessionConfig::new()).unwrap();
    let mut input = c2;
    if let ClientSessionResult::OutboundResponse(p) = session.request_connection("live".to_string()).unwrap() {
        input.extend(p.bytes);
    }
    // the end of the handshake and the connect request arrive in one read
    server.receive(&input);
    let mut sent = Vec::new();
    loop {
        match server.poll() {
            Action::Send(b) => sent.extend(b),
            Action::Continue => {},
            Action::Decode { session, input } => {
                let mut session = session;
                let outcome = session.handle_input(&input);
                assert!(matches!(server.decoded(session, outcome), Action::Continue));
            },
            Action::Wait => break,
            _ => panic!("the connection failed"),
        }
    }
    assert_eq!(server.phase_now(), Phase::Connected);
    let accepted = session.handle_input(&sent).unwrap();
    assert!(accepted.iter().any(|r| matches!(
        r,
        ClientSessionResult::RaisedEvent(ClientSessionEvent::ConnectionRequestAccepted)
    )));
}

#[test]
fn client_handshake_decisions() {
    let mut client = Handshaker::new(Peer::Client);
    let mut server = Handshake::new(PeerType::Server);
    let opening = client.opening().ok().unwrap();
    let s012 = match server.process_bytes(&opening).unwrap() {
        HandshakeProcessResult::InProgress { response_bytes } => response_bytes,
        HandshakeProcessResult::Completed { response_bytes, .. } => response_bytes,
    };
    // a partial read asks for more
    assert!(matches!(client.on_read(&s012[..10]), HandshakeAction::Wait));
    let mut rest = s012[10..].to_vec();
    rest.extend_from_slice(&[4, 5]);
    match client.on_read(&rest) {
        HandshakeAction::Done { response, remaining } => {
            assert_eq!(response.len(), 1536);
            assert_eq!(remaining, vec![4, 5]);
        },
        _ => panic!("the handshake did not complete"),
    }
}

#[test]
fn client_handshake_fails_on_eof() {
    let mut client = Handshaker::new(Peer::Client);
    match client.on_read(&[]) {
        HandshakeAction::Fail(rtmp_relay::pipe::ServerError::ClientError(m)) => assert_eq!(m, "client handshake error"),
        _ => panic!("an empty read did not fail the handshake"),
    }
}
