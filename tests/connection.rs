use rml_rtmp::handshake::{Handshake, HandshakeProcessResult, PeerType};
use rml_rtmp::sessions::{
    ClientSession, ClientSessionConfig, ClientSessionEvent, ClientSessionResult, PublishRequestType,
};
use rtmp_relay::codec::{MediaData, SessionResult};
use rtmp_relay::login::{LoginBrowser, LoginConfig};
use rtmp_relay::pipe::{Action, Media, Phase, Server, ServerError, ServiceRegistry};

fn registry(names: &[&str]) -> ServiceRegistry {
    let mut r = ServiceRegistry::new();
    for n in names {
        assert!(r.register(n.to_string()).is_some());
    }
    r
}

fn media(app: &str, key: &str) -> MediaData {
    MediaData { app_name: app.to_string(), stream_key: key.to_string(), data: vec![1, 2, 3], timestamp: 9 }
}

fn publish(id: u32, app: &str, key: &str) -> SessionResult {
    SessionResult::PublishRequested { request_id: id, app_name: app.to_string(), stream_key: key.to_string() }
}

/// Polls until the server asks for something other than writing or continuing; returns
/// the bytes it wrote and that last action.
fn pump(server: &mut Server<u32>) -> (Vec<u8>, Action) {
    let mut written = Vec::new();
    loop {
        match server.poll() {
            Action::Send(bytes) => written.extend_from_slice(&bytes),
            Action::Continue => {},
            Action::Decode { session, input } => {
                let mut session = session;
                let outcome = session.handle_input(&input);
                if let Action::Fail(e) = server.decoded(session, outcome) {
                    return (written, Action::Fail(e));
                }
            },
            other => return (written, other),
        }
    }
}

fn client_outbound(results: Vec<ClientSessionResult>) -> (Vec<u8>, Vec<ClientSessionEvent>) {
    let mut bytes = Vec::new();
    let mut events = Vec::new();
    for r in results {
        match r {
            ClientSessionResult::OutboundResponse(p) => bytes.extend_from_slice(&p.bytes),
            ClientSessionResult::RaisedEvent(e) => events.push(e),
            _ => {},
        }
    }
    (bytes, events)
}

/// Runs a real client through handshake, connect and publish against `server`; returns
/// the action the publish request led to.
fn connect_and_publish(server: &mut Server<u32>, app: &str, key: &str) -> (ClientSession, Action) {
    let mut hs = Handshake::new(PeerType::Client);
    server.receive(&hs.generate_outbound_p0_and_p1().unwrap());
    let (s01, a) = pump(server);
    assert!(matches!(a, Action::Wait));
    let c2 = match hs.process_bytes(&s01).unwrap() {
        HandshakeProcessResult::InProgress { response_bytes } => response_bytes,
        HandshakeProcessResult::Completed { response_bytes, .. } => response_bytes,
    };
    server.receive(&c2);
    let (opening, a) = pump(server);
    assert!(matches!(a, Action::Wait));
    assert_eq!(server.phase_now(), Phase::Connected);

    let (mut client, _) = ClientSession::new(ClientSessionConfig::new()).unwrap();
    let _ = client.handle_input(&opening).unwrap();
    let (req, _) = client_outbound(vec![client.request_connection(app.to_string()).unwrap()]);
    server.receive(&req);
    let (accepted, a) = pump(server);
    assert!(matches!(a, Action::Wait));
    assert!(!accepted.is_empty());
    let (reply, events) = client_outbound(client.handle_input(&accepted).unwrap());
    assert!(events.iter().any(|e| matches!(e, ClientSessionEvent::ConnectionRequestAccepted)));
    server.receive(&reply);
    let _ = pump(server);
    let (mut req, _) = client_outbound(vec![client.request_publishing(key.to_string(), PublishRequestType::Live).unwrap()]);
    // exchange until the server asks for more than reading (createStream comes before publish)
    for _ in 0..8 {
        server.receive(&req);
        let (answer, a) = pump(server);
        if !matches!(a, Action::Wait) {
            return (client, a);
        }
        req = client_outbound(client.handle_input(&answer).unwrap()).0;
    }
    panic!("the publish request never reached the server");
}

#[test]
fn publish_accepted_after_relay_established() {
    let mut server: Server<u32> = Server::new(registry(&["other", "live"]));
    let (mut client, a) = connect_and_publish(&mut server, "live", "abc123");
    match a {
        Action::OpenRelay { service, app_name, stream_key } => {
            assert_eq!(service, 1);
            assert_eq!(app_name, "live");
            assert_eq!(stream_key, "abc123");
        },
        _ => panic!("the publish did not ask for a relay"),
    }
    assert_eq!(server.route_count(), 0);
    assert!(matches!(server.relay_opened(7), Action::Continue));
    assert_eq!(server.route_count(), 1);
    assert_eq!(server.find_route(&"live".to_string(), &"abc123".to_string()), Some(0));
    assert_eq!(*server.relay(0), 7);
    let (accepted, a) = pump(&mut server);
    assert!(matches!(a, Action::Wait));
    let (_, events) = client_outbound(client.handle_input(&accepted).unwrap());
    assert!(events.iter().any(|e| matches!(e, ClientSessionEvent::PublishRequestAccepted)));

    let relays = server.close();
    assert_eq!(relays, vec![7]);
    assert_eq!(server.route_count(), 0);
    assert_eq!(server.phase_now(), Phase::Closed);
}

#[test]
fn publish_for_unknown_app_closes() {
    let mut server: Server<u32> = Server::new(registry(&["live"]));
    let (_, a) = connect_and_publish(&mut server, "unknown", "abc123");
    assert!(matches!(a, Action::Close));
    assert_eq!(server.route_count(), 0);
    assert_eq!(server.phase_now(), Phase::Closed);
}

#[test]
fn unregistered_publish_writes_nothing() {
    let mut server: Server<u32> = Server::new(registry(&["live"]));
    server.queue_front(vec![publish(1, "unknown", "abc123")]);
    let (written, a) = pump(&mut server);
    assert!(written.is_empty());
    assert!(matches!(a, Action::Close));
    assert_eq!(server.route_count(), 0);
    assert!(matches!(server.poll(), Action::Close));
}

#[test]
fn auth_failure_rejects_publish() {
    let mut server: Server<u32> = Server::new(registry(&["live"]));
    server.queue_front(vec![publish(1, "live", "k")]);
    assert!(matches!(server.poll(), Action::OpenRelay { service: 0, .. }));
    assert!(matches!(server.poll(), Action::Fail(ServerError::StateError)));
    server.relay_failed();
    assert_eq!(server.route_count(), 0);
    assert_eq!(server.phase_now(), Phase::Closed);
    assert!(matches!(server.poll(), Action::Close));
}

#[test]
fn relay_opened_without_publish_is_a_state_error() {
    let mut server: Server<u32> = Server::new(registry(&["live"]));
    assert!(matches!(server.relay_opened(3), Action::Fail(ServerError::StateError)));
    assert_eq!(server.route_count(), 0);
    assert_eq!(server.phase_now(), Phase::Handshaking);
}

#[test]
fn relay_opened_before_session_closes() {
    let mut server: Server<u32> = Server::new(registry(&["live"]));
    server.queue_front(vec![publish(1, "live", "k")]);
    assert!(matches!(server.poll(), Action::OpenRelay { .. }));
    assert!(matches!(server.relay_opened(3), Action::Fail(ServerError::StateError)));
    assert_eq!(server.route_count(), 0);
    assert_eq!(server.phase_now(), Phase::Closed);
}

#[test]
fn unroutable_media_is_dropped() {
    let mut server: Server<u32> = Server::new(registry(&["live"]));
    server.queue_front(vec![
        SessionResult::Audio(media("live", "nokey")),
        SessionResult::Video(media("live", "nokey")),
        SessionResult::Outbound(vec![5]),
    ]);
    assert!(matches!(server.poll(), Action::Continue));
    assert!(matches!(server.poll(), Action::Continue));
    match server.poll() {
        Action::Send(b) => assert_eq!(b, vec![5]),
        _ => panic!("the outbound bytes were not sent"),
    }
    assert!(matches!(server.poll(), Action::Wait));
    assert_eq!(server.phase_now(), Phase::Handshaking);
}

#[test]
fn routed_media_is_forwarded() {
    let mut server: Server<u32> = Server::new(registry(&["live"]));
    let (_, a) = connect_and_publish(&mut server, "live", "abc123");
    assert!(matches!(a, Action::OpenRelay { .. }));
    assert!(matches!(server.relay_opened(11), Action::Continue));
    let _ = pump(&mut server);
    server.queue_front(vec![SessionResult::Video(media("live", "abc123")), SessionResult::Audio(media("live", "other"))]);
    match server.poll() {
        Action::Forward { route, media: Media::Video(m) } => {
            assert_eq!(route, 0);
            assert_eq!(m.data, vec![1, 2, 3]);
            assert_eq!(m.timestamp, 9);
        },
        _ => panic!("video was not forwarded"),
    }
    assert!(matches!(server.poll(), Action::Continue));
    assert_eq!(server.relay_ended(0), 11);
    assert_eq!(server.route_count(), 0);
    assert_eq!(server.find_route(&"live".to_string(), &"abc123".to_string()), None);
}

#[test]
fn second_publish_of_same_route_closes() {
    let mut server: Server<u32> = Server::new(registry(&["live"]));
    let (_, a) = connect_and_publish(&mut server, "live", "abc123");
    assert!(matches!(a, Action::OpenRelay { .. }));
    assert!(matches!(server.relay_opened(1), Action::Continue));
    let _ = pump(&mut server);
    server.queue_front(vec![publish(99, "live", "abc123")]);
    assert!(matches!(server.poll(), Action::Close));
    assert_eq!(server.route_count(), 1);
}

#[test]
fn connection_request_before_session_is_a_state_error() {
    let mut server: Server<u32> = Server::new(registry(&[]));
    server.queue_front(vec![SessionResult::ConnectionRequested { request_id: 1, app_name: "live".to_string() }]);
    assert!(matches!(server.poll(), Action::Fail(ServerError::StateError)));
    assert_eq!(server.phase_now(), Phase::Closed);
}

#[test]
fn queued_results_run_ahead_of_earlier_ones() {
    let mut server: Server<u32> = Server::new(registry(&[]));
    server.queue_front(vec![SessionResult::Outbound(vec![1]), SessionResult::Outbound(vec![2])]);
    server.queue_front(vec![SessionResult::Outbound(vec![3])]);
    let (written, a) = pump(&mut server);
    assert_eq!(written, vec![3, 1, 2]);
    assert!(matches!(a, Action::Wait));
}

#[test]
fn handshake_garbage_closes() {
    let mut server: Server<u32> = Server::new(registry(&[]));
    server.receive(&[7u8; 10]);
    let (_, a) = pump(&mut server);
    assert!(matches!(a, Action::Fail(ServerError::SocketClosed)));
    assert_eq!(server.phase_now(), Phase::Closed);
}

#[test]
fn registry_refuses_duplicate_name() {
    let mut r = ServiceRegistry::new();
    assert_eq!(r.register("a".to_string()), Some(0));
    assert_eq!(r.register("b".to_string()), Some(1));
    assert_eq!(r.register("a".to_string()), None);
    assert_eq!(r.len(), 2);
    assert_eq!(r.lookup(&"b".to_string()), Some(1));
    assert_eq!(r.lookup(&"c".to_string()), None);
}

#[test]
fn login_completes_at_after_url() {
    let b = LoginBrowser::new(LoginConfig { page_url: "https://p/login".to_string(), after_url: "https://p/home".to_string() });
    assert_eq!(b.page_url(), "https://p/login");
    assert!(b.is_logged_in(&"https://p/home".to_string()));
    assert!(!b.is_logged_in(&"https://p/login".to_string()));
}

#[test]
fn decode_is_handed_out_with_all_input() {
    let mut server: Server<u32> = Server::new(registry(&[]));
    let mut hs = Handshake::new(PeerType::Client);
    server.receive(&hs.generate_outbound_p0_and_p1().unwrap());
    let (s01, _) = pump(&mut server);
    let c2 = match hs.process_bytes(&s01).unwrap() {
        HandshakeProcessResult::InProgress { response_bytes } => response_bytes,
        HandshakeProcessResult::Completed { response_bytes, .. } => response_bytes,
    };
    server.receive(&c2);
    let _ = pump(&mut server);
    server.receive(&[1, 2]);
    server.receive(&[3]);
    match server.poll() {
        Action::Decode { session, input } => {
            assert_eq!(input, vec![1, 2, 3]);
            assert_eq!(server.phase_now(), Phase::Decoding);
            assert!(matches!(server.poll(), Action::Fail(ServerError::StateError)));
            assert!(matches!(server.decoded(session, Ok(vec![])), Action::Continue));
            assert_eq!(server.phase_now(), Phase::Connected);
        },
        _ => panic!("the input was not handed out for decoding"),
    }
    assert!(matches!(server.poll(), Action::Wait));
}

#[test]
fn aborted_decode_closes() {
    let mut server: Server<u32> = Server::new(registry(&[]));
    assert!(matches!(server.decode_aborted(), Action::Fail(ServerError::SocketClosed)));
    assert_eq!(server.phase_now(), Phase::Closed);
}
