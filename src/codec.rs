//! The outside codecs this library drives: the RTMP handshake and server session of
//! `rml_rtmp`, and the URL parser of `url`. Each call stands behind one small trusted
//! function; everything decided on their results is verified elsewhere.
use vstd::prelude::*;

use rml_rtmp::handshake::{Handshake, HandshakeError, HandshakeProcessResult, PeerType};
use rml_rtmp::sessions::{
    ServerSession, ServerSessionConfig, ServerSessionError, ServerSessionEvent, ServerSessionResult,
};
use rml_rtmp::sessions::ServerSessionEvent as E;
use rml_rtmp::sessions::{
    ClientSession, ClientSessionConfig, ClientSessionError, ClientSessionEvent, ClientSessionResult,
    PublishRequestType,
};
use rml_rtmp::time::RtmpTimestamp;
use url::{ParseError, Url};

verus! {

#[verifier::external_type_specification]
#[verifier::external_body]
pub struct ExHandshake(Handshake);

#[verifier::external_type_specification]
#[verifier::external_body]
pub struct ExHandshakeError(HandshakeError);

#[verifier::external_type_specification]
#[verifier::external_body]
pub struct ExServerSession(ServerSession);

#[verifier::external_type_specification]
#[verifier::external_body]
pub struct ExServerSessionResult(ServerSessionResult);

#[verifier::external_type_specification]
#[verifier::external_body]
pub struct ExServerSessionError(ServerSessionError);

#[verifier::external_type_specification]
#[verifier::external_body]
pub struct ExServerSessionEvent(ServerSessionEvent);

#[verifier::external_type_specification]
#[verifier::external_body]
pub struct ExParseError(ParseError);

#[verifier::external_type_specification]
#[verifier::external_body]
pub struct ExClientSession(ClientSession);

#[verifier::external_type_specification]
#[verifier::external_body]
pub struct ExClientSessionResult(ClientSessionResult);

#[verifier::external_type_specification]
#[verifier::external_body]
pub struct ExClientSessionError(ClientSessionError);

/// The side of the connection a handshake is run for.
#[derive(PartialEq, Eq, Structural, Clone, Copy, Debug)]
pub enum Peer {
    Server,
    Client,
}

/// One outcome of feeding bytes to a handshake.
pub enum HandshakeStep {
    /// More bytes are needed; `response` goes to the peer.
    InProgress { response: Vec<u8> },
    /// The handshake is over; `response` goes to the peer and `remaining` are the bytes
    /// that followed the handshake in the input.
    Completed { response: Vec<u8>, remaining: Vec<u8> },
}

/// Media carried by an audio or a video message.
pub struct MediaData {
    pub app_name: String,
    pub stream_key: String,
    pub data: Vec<u8>,
    pub timestamp: u32,
}

/// One result of the server session, as far as the connection driver tells them apart.
pub enum SessionResult {
    /// Bytes to write to the peer, in order.
    Outbound(Vec<u8>),
    /// The peer asks to connect to application `app_name`.
    ConnectionRequested { request_id: u32, app_name: String },
    /// The peer asks to publish under `(app_name, stream_key)`.
    PublishRequested { request_id: u32, app_name: String, stream_key: String },
    Audio(MediaData),
    Video(MediaData),
    /// An AMF0 command the session has no meaning for.
    UnhandleableCommand,
    /// Any other event; nothing is done for it.
    Other,
}

/// One result of the upstream client session, as far as the relay tells them apart.
pub enum UpstreamResult {
    /// Bytes to write upstream, in order.
    Outbound(Vec<u8>),
    ConnectionAccepted,
    ConnectionRejected,
    PublishAccepted,
    /// Any other event; nothing is done for it.
    Other,
}

/// How an upstream publish is recorded.
#[derive(PartialEq, Eq, Structural, Clone, Copy, Debug)]
pub enum PublishKind {
    Live,
    Record,
    Append,
}

/// The pieces of a parsed URL that the relay reads.
pub struct UrlParts {
    pub scheme: String,
    pub host: Option<String>,
    pub port: Option<u16>,
    /// The path, without query or fragment.
    pub path: String,
}

impl UrlParts {
    pub open spec fn view(&self) -> (Seq<char>, Option<Seq<char>>, Option<u16>, Seq<char>) {
        (
            self.scheme@,
            match self.host {
                Some(h) => Some(h@),
                None => None,
            },
            self.port,
            self.path@,
        )
    }
}

/// What `url::Url::parse` makes of a string: `None` where it refuses it, else the
/// scheme, host, explicit port and path.
pub uninterp spec fn url_parts_of(s: Seq<char>) -> Option<
    (Seq<char>, Option<Seq<char>>, Option<u16>, Seq<char>),
>;

/// Relies on `rml_rtmp::handshake::Handshake::new`, which only records the peer type.
#[verifier::external_body]
pub(crate) fn new_handshake(peer: Peer) -> (r: Handshake) {
    match peer {
        Peer::Server => Handshake::new(PeerType::Server),
        Peer::Client => Handshake::new(PeerType::Client),
    }
}

/// Relies on `Handshake::generate_outbound_p0_and_p1`: the opening bytes a client sends.
#[verifier::external_body]
pub(crate) fn handshake_opening(h: &mut Handshake) -> (r: Result<Vec<u8>, HandshakeError>) {
    h.generate_outbound_p0_and_p1()
}

/// Relies on `Handshake::process_bytes`, which buffers `input` and answers with the
/// bytes for the peer, and on completion with the bytes after the handshake.
#[verifier::external_body]
pub(crate) fn handshake_process(h: &mut Handshake, input: &[u8]) -> (r: Result<
    HandshakeStep,
    HandshakeError,
>) {
    match h.process_bytes(input)? {
        HandshakeProcessResult::InProgress { response_bytes } => Ok(
            HandshakeStep::InProgress { response: response_bytes },
        ),
        HandshakeProcessResult::Completed { response_bytes, remaining_bytes } => Ok(
            HandshakeStep::Completed { response: response_bytes, remaining: remaining_bytes },
        ),
    }
}

/// Relies on `rml_rtmp::sessions::ServerSession::new` with the default configuration:
/// the session and its opening results.
#[verifier::external_body]
pub(crate) fn new_server_session() -> (r: Result<
    (ServerSession, Vec<ServerSessionResult>),
    ServerSessionError,
>) {
    ServerSession::new(ServerSessionConfig::new())
}

/// Relies on `ServerSession::accept_request`: the results that accepting request `id` makes.
#[verifier::external_body]
pub(crate) fn session_accept(s: &mut ServerSession, id: u32) -> (r: Result<
    Vec<ServerSessionResult>,
    ServerSessionError,
>) {
    s.accept_request(id)
}

/// A server session result before its event is read.
pub(crate) enum RawResult {
    Packet(Vec<u8>),
    Event(ServerSessionEvent),
    Unhandled,
}

/// Relies on the three variants of `ServerSessionResult`: a packet's bytes, or the event.
#[verifier::external_body]
pub(crate) fn split_result(r: ServerSessionResult) -> (c: RawResult) {
    match r {
        ServerSessionResult::OutboundResponse(p) => RawResult::Packet(p.bytes),
        ServerSessionResult::RaisedEvent(e) => RawResult::Event(e),
        ServerSessionResult::UnhandleableMessageReceived(_) => RawResult::Unhandled,
    }
}

/// Relies on the variants of `ServerSessionEvent`: moves the fields that the driver reads
/// into a `SessionResult`.
#[verifier::external_body]
pub(crate) fn classify_event(e: ServerSessionEvent) -> (c: SessionResult) {
    match e {
        E::ConnectionRequested { request_id, app_name } =>
            SessionResult::ConnectionRequested { request_id, app_name },
        E::PublishStreamRequested { request_id, app_name, stream_key, .. } =>
            SessionResult::PublishRequested { request_id, app_name, stream_key },
        E::AudioDataReceived { app_name, stream_key, data, timestamp } =>
            SessionResult::Audio(MediaData { app_name, stream_key, data: data.to_vec(), timestamp: timestamp.value }),
        E::VideoDataReceived { app_name, stream_key, data, timestamp } =>
            SessionResult::Video(MediaData { app_name, stream_key, data: data.to_vec(), timestamp: timestamp.value }),
        E::UnhandleableAmf0Command { .. } => SessionResult::UnhandleableCommand,
        _ => SessionResult::Other,
    }
}

/// Relies on `rml_rtmp::sessions::ClientSession::new` with the default configuration.
#[verifier::external_body]
pub(crate) fn new_client_session() -> (r: Result<
    (ClientSession, Vec<ClientSessionResult>),
    ClientSessionError,
>) {
    ClientSession::new(ClientSessionConfig::new())
}

/// Relies on `ClientSession::request_connection`: the request to connect to `app_name`.
#[verifier::external_body]
pub(crate) fn client_connect(s: &mut ClientSession, app_name: String) -> (r: Result<
    ClientSessionResult,
    ClientSessionError,
>) {
    s.request_connection(app_name)
}

/// Relies on `ClientSession::request_publishing`: the request to publish under `key`.
#[verifier::external_body]
pub(crate) fn client_publish(s: &mut ClientSession, key: String, kind: PublishKind) -> (r: Result<
    ClientSessionResult,
    ClientSessionError,
>) {
    let kind = match kind {
        PublishKind::Live => PublishRequestType::Live,
        PublishKind::Record => PublishRequestType::Record,
        PublishKind::Append => PublishRequestType::Append,
    };
    s.request_publishing(key, kind)
}

/// Relies on `ClientSession::publish_audio_data`.
#[verifier::external_body]
pub(crate) fn client_audio(
    s: &mut ClientSession,
    data: Vec<u8>,
    timestamp: u32,
    can_be_dropped: bool,
) -> (r: Result<ClientSessionResult, ClientSessionError>) {
    s.publish_audio_data(bytes::Bytes::from(data), RtmpTimestamp::new(timestamp), can_be_dropped)
}

/// Relies on `ClientSession::publish_video_data`.
#[verifier::external_body]
pub(crate) fn client_video(
    s: &mut ClientSession,
    data: Vec<u8>,
    timestamp: u32,
    can_be_dropped: bool,
) -> (r: Result<ClientSessionResult, ClientSessionError>) {
    s.publish_video_data(bytes::Bytes::from(data), RtmpTimestamp::new(timestamp), can_be_dropped)
}

/// Relies on the variants of `ClientSessionResult` and `ClientSessionEvent`: a packet's
/// bytes, or which event the relay acts on.
#[verifier::external_body]
pub(crate) fn classify_upstream(r: ClientSessionResult) -> (c: UpstreamResult) {
    match r {
        ClientSessionResult::OutboundResponse(p) => UpstreamResult::Outbound(p.bytes),
        ClientSessionResult::RaisedEvent(ClientSessionEvent::ConnectionRequestAccepted) => UpstreamResult::ConnectionAccepted,
        ClientSessionResult::RaisedEvent(ClientSessionEvent::ConnectionRequestRejected { .. }) => UpstreamResult::ConnectionRejected,
        ClientSessionResult::RaisedEvent(ClientSessionEvent::PublishRequestAccepted) => UpstreamResult::PublishAccepted,
        _ => UpstreamResult::Other,
    }
}

/// Relies on `url::Url::parse`, and on `scheme`, `host_str`, `port` and `path` of the
/// parsed URL.
#[verifier::external_body]
pub(crate) fn parse_url(s: &str) -> (r: Result<UrlParts, ParseError>)
    ensures
        match r {
            Ok(p) => url_parts_of(s@) == Some(p.view()),
            Err(_) => url_parts_of(s@) is None,
        },
{
    let u = Url::parse(s)?;
    Ok(UrlParts {
        scheme: u.scheme().to_string(),
        host: u.host_str().map(|h| h.to_string()),
        port: u.port(),
        path: u.path().to_string(),
    })
}

} // verus!
