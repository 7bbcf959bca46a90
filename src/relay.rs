//! The outbound relay's own logic: where the upstream is, the client-side handshake, and
//! the upstream client session.
use vstd::prelude::*;
use vstd::string::*;

use crate::codec::{
    classify_upstream, client_audio, client_connect, client_publish, client_video,
    handshake_opening, handshake_process, new_client_session, new_handshake, parse_url,
    url_parts_of, HandshakeStep, Peer, PublishKind, UpstreamResult, UrlParts,
};
use crate::pipe::{Media, ServerError};
use crate::services::Authentication;
use rml_rtmp::handshake::Handshake;
use rml_rtmp::sessions::{ClientSession, ClientSessionError, ClientSessionResult};

verus! {

/// The port of an upstream URL that names none.
pub const DEFAULT_PORT: u16 = 1935;

/// What the relay's reading task hands to its processing task.
pub enum ClientEvent {
    /// Bytes read from the upstream connection.
    Read(Vec<u8>),
    /// The upstream connection has ended.
    End,
}

/// The upstream endpoint and publish target of a relay.
pub struct Upstream {
    pub host: String,
    pub port: u16,
    /// The application to connect to upstream.
    pub app_name: String,
    /// The stream key to publish under upstream.
    pub key: Option<String>,
}

/// The application named by a URL path: the path without its leading slash.
pub open spec fn app_of(path: Seq<char>) -> Seq<char> {
    if path.len() > 0 && path[0] == '/' {
        path.drop_first()
    } else {
        path
    }
}

/// The upstream `(host, port, app)` of parsed URL parts, or the message that refuses them.
pub open spec fn target_of(parts: (Seq<char>, Option<Seq<char>>, Option<u16>, Seq<char>)) -> Result<
    (Seq<char>, u16, Seq<char>),
    Seq<char>,
> {
    if parts.0 != "rtmp"@ {
        Err("protocol error"@)
    } else {
        match parts.1 {
            None => Err("get_auth failed: no host"@),
            Some(host) => if app_of(parts.3).len() == 0 {
                Err("no upstream application"@)
            } else {
                Ok(
                    (
                        host,
                        match parts.2 {
                            Some(p) => p,
                            None => DEFAULT_PORT,
                        },
                        app_of(parts.3),
                    ),
                )
            },
        }
    }
}

/// Whether `r` is the upstream `target` with key `key`, or the refusal `target` gives.
pub open spec fn meets_target(
    target: Result<(Seq<char>, u16, Seq<char>), Seq<char>>,
    key: Option<String>,
    r: Result<Upstream, ServerError>,
) -> bool {
    match target {
        Ok(t) => r matches Ok(u) && u.host@ == t.0 && u.port == t.1 && u.app_name@ == t.2
            && u.key == key,
        Err(m) => r matches Err(ServerError::ClientError(e)) && e@ == m,
    }
}

/// The upstream named by parsed URL parts: scheme `rtmp` is required, a host, and a path
/// that names the application after its slash; the port defaults to 1935.
pub fn upstream_target(parts: UrlParts, key: Option<String>) -> (r: Result<Upstream, ServerError>)
    ensures
        meets_target(target_of(parts.view()), key, r),
{
    let rtmp = String::from_str("rtmp");
    proof {
        reveal_strlit("rtmp");
        reveal_strlit("protocol error");
        reveal_strlit("get_auth failed: no host");
        reveal_strlit("no upstream application");
    }
    if !(parts.scheme == rtmp) {
        return Err(ServerError::ClientError(String::from_str("protocol error")));
    }
    let host = match parts.host {
        Some(h) => h,
        None => {
            return Err(ServerError::ClientError(String::from_str("get_auth failed: no host")));
        },
    };
    let port = match parts.port {
        Some(p) => p,
        None => DEFAULT_PORT,
    };
    let path = parts.path.as_str();
    let n = path.unicode_len();
    let app_name = if n > 0 && path.get_char(0) == '/' {
        String::from_str(path.substring_char(1, n))
    } else {
        String::from_str(path)
    };
    assert(app_name@ =~= app_of(parts.path@));
    if app_name.as_str().unicode_len() == 0 {
        return Err(ServerError::ClientError(String::from_str("no upstream application")));
    }
    Ok(Upstream { host, port, app_name, key })
}

/// The upstream that an authentication points at: its URL parsed and checked as
/// `upstream_target` does, with the authentication's key.
pub fn resolve_upstream(auth: Authentication) -> (r: Result<Upstream, ServerError>)
    ensures
        match url_parts_of(auth.url@) {
            None => r matches Err(ServerError::ParseError(_)),
            Some(parts) => meets_target(target_of(parts), auth.key, r),
        },
{
    match parse_url(auth.url.as_str()) {
        Ok(parts) => upstream_target(parts, auth.key),
        Err(e) => Err(ServerError::ParseError(e)),
    }
}

/// What the owner of a client handshake is asked to do after reading from the upstream.
pub enum HandshakeAction {
    /// Write these bytes upstream and read again.
    Send(Vec<u8>),
    /// Read again.
    Wait,
    /// The handshake is over: write `response` if it is not empty; `remaining` are the
    /// bytes that followed the handshake.
    Done { response: Vec<u8>, remaining: Vec<u8> },
    /// The handshake failed.
    Fail(ServerError),
}

/// What a client does with a successful handshake step.
pub open spec fn client_outcome(step: HandshakeStep) -> HandshakeAction {
    match step {
        HandshakeStep::InProgress { response } => if response@.len() > 0 {
            HandshakeAction::Send(response)
        } else {
            HandshakeAction::Wait
        },
        HandshakeStep::Completed { response, remaining } => HandshakeAction::Done {
            response,
            remaining,
        },
    }
}

/// The message with which an upstream that closes during the handshake is given up.
pub open spec fn handshake_eof_message() -> Seq<char> {
    "client handshake error"@
}

/// A handshake in one role; its failures close the connection.
pub struct Handshaker {
    handshake: Handshake,
    /// Whether the opening bytes were asked for.
    opened: Ghost<bool>,
    /// Every byte handed to the handshake, in order.
    fed: Ghost<Seq<u8>>,
}

impl Handshaker {
    pub closed spec fn opened(&self) -> bool {
        self.opened@
    }

    pub closed spec fn fed(&self) -> Seq<u8> {
        self.fed@
    }

    pub fn new(peer: Peer) -> (r: Self)
        ensures
            !r.opened(),
            r.fed() == Seq::<u8>::empty(),
    {
        Handshaker { handshake: new_handshake(peer), opened: Ghost(false), fed: Ghost(Seq::empty()) }
    }

    /// The bytes with which a client opens the handshake.
    pub fn opening(&mut self) -> (r: Result<Vec<u8>, ServerError>)
        ensures
            final(self).opened(),
            final(self).fed() == old(self).fed(),
            r is Err ==> r == Err::<Vec<u8>, ServerError>(ServerError::SocketClosed),
    {
        let result = handshake_opening(&mut self.handshake);
        self.opened = Ghost(true);
        match result {
            Ok(bytes) => Ok(bytes),
            Err(_) => Err(ServerError::SocketClosed),
        }
    }

    /// Feeds bytes from the peer to the handshake.
    pub fn step(&mut self, input: &[u8]) -> (r: Result<HandshakeStep, ServerError>)
        ensures
            final(self).fed() == old(self).fed() + input@,
            final(self).opened() == old(self).opened(),
            r is Err ==> r == Err::<HandshakeStep, ServerError>(ServerError::SocketClosed),
    {
        let result = handshake_process(&mut self.handshake, input);
        self.fed = Ghost(self.fed@ + input@);
        match result {
            Ok(step) => Ok(step),
            Err(_) => Err(ServerError::SocketClosed),
        }
    }

    /// The client's decision on `input`, the bytes of one read from the upstream: an
    /// empty read means the upstream closed and fails the handshake; other bytes go to the
    /// handshake, whose step says what to write and whether it is over.
    pub fn on_read(&mut self, input: &[u8]) -> (r: HandshakeAction)
        ensures
            final(self).opened() == old(self).opened(),
            input@.len() == 0 ==> final(self).fed() == old(self).fed() && (r matches HandshakeAction::Fail(
                ServerError::ClientError(m),
            ) && m@ == handshake_eof_message()),
            input@.len() > 0 ==> final(self).fed() == old(self).fed() + input@ && (r
                == HandshakeAction::Fail(ServerError::SocketClosed) || exists|step: HandshakeStep|
                r == client_outcome(step)),
    {
        if input.len() == 0 {
            proof {
                reveal_strlit("client handshake error");
            }
            return HandshakeAction::Fail(
                ServerError::ClientError(String::from_str("client handshake error")),
            );
        }
        match self.step(input) {
            Ok(step) => client_action(step),
            Err(e) => HandshakeAction::Fail(e),
        }
    }
}

/// What a client does with a successful handshake step.
pub fn client_action(step: HandshakeStep) -> (r: HandshakeAction)
    ensures
        r == client_outcome(step),
{
    match step {
        HandshakeStep::InProgress { response } => if response.len() > 0 {
            HandshakeAction::Send(response)
        } else {
            HandshakeAction::Wait
        },
        HandshakeStep::Completed { response, remaining } => HandshakeAction::Done {
            response,
            remaining,
        },
    }
}

/// Turns a batch of client session results into the relay's own, keeping the order.
fn convert_upstream(raw: Vec<ClientSessionResult>) -> (r: Vec<UpstreamResult>)
    ensures
        r@.len() == raw@.len(),
{
    let mut raw = raw;
    let mut out: Vec<UpstreamResult> = Vec::new();
    let ghost n = raw@.len();
    while raw.len() > 0
        invariant
            out@.len() + raw@.len() == n,
        decreases raw@.len(),
    {
        let item = raw.remove(0);
        out.push(classify_upstream(item));
    }
    out
}

/// What the relay's processing task is asked to do next.
pub enum RelayAction {
    /// Write these bytes upstream.
    Send(Vec<u8>),
    /// Nothing to do; poll again.
    Continue,
    /// All results and input are handled; wait for upstream bytes or media.
    Wait,
    /// Decode `input`, bytes read from upstream, with the session's `handle_input`, then
    /// hand the session and the outcome back with `decoded`.
    Decode { session: ClientSession, input: Vec<u8> },
    /// The relay failed with this error.
    Fail(ServerError),
}

/// The media of `m` as handed to the session: whether it is video, its data, its timestamp.
pub open spec fn media_view(m: Media) -> (bool, Seq<u8>, u32) {
    match m {
        Media::Audio(d) => (false, d.data@, d.timestamp),
        Media::Video(d) => (true, d.data@, d.timestamp),
    }
}

/// The key the relay publishes under: the authentication's key, or an empty one.
pub open spec fn publish_key(key: Option<String>) -> Seq<char> {
    match key {
        Some(k) => k@,
        None => Seq::empty(),
    }
}

/// The upstream side of a relay: the client session that connects to the upstream
/// application, publishes under the key, and then carries the forwarded media.
pub struct Relay {
    session: Option<ClientSession>,
    pending: Vec<UpstreamResult>,
    buffer: Vec<u8>,
    key: Option<String>,
    publishing: bool,
    /// The application the connection was requested for.
    connected_to: Ghost<Seq<char>>,
    /// The keys publishing was requested under, in order.
    published: Ghost<Seq<Seq<char>>>,
    /// The media handed to the session, in order.
    forwarded: Ghost<Seq<(bool, Seq<u8>, u32)>>,
}

impl Relay {
    /// Results not yet handled, in the order they will be.
    pub closed spec fn pending(&self) -> Seq<UpstreamResult> {
        self.pending@
    }

    /// Bytes read from upstream and not yet decoded.
    pub closed spec fn buffered(&self) -> Seq<u8> {
        self.buffer@
    }

    /// Whether the session is lent out for decoding.
    pub closed spec fn lent(&self) -> bool {
        self.session is None
    }

    /// Whether the upstream has accepted the publish.
    pub closed spec fn publishing(&self) -> bool {
        self.publishing
    }

    pub closed spec fn key(&self) -> Option<String> {
        self.key
    }

    /// The application the session was asked to connect to, the keys it was asked to
    /// publish under, and the media it was handed.
    pub closed spec fn calls(&self) -> (Seq<char>, Seq<Seq<char>>, Seq<(bool, Seq<u8>, u32)>) {
        (self.connected_to@, self.published@, self.forwarded@)
    }

    /// Starts the client session on a completed upstream handshake: the session's opening
    /// results, then the request to connect to the upstream application; `leftover`, the
    /// bytes that followed the handshake, is the first input to decode.
    pub fn open(upstream: Upstream, leftover: &[u8]) -> (r: Result<Relay, ServerError>)
        ensures
            r matches Ok(relay) ==> !relay.publishing() && !relay.lent() && relay.key()
                == upstream.key && relay.buffered() == leftover@ && relay.pending().len() >= 1
                && relay.calls() == (upstream.app_name@, Seq::<Seq<char>>::empty(), Seq::<
                (bool, Seq<u8>, u32),
            >::empty()),
            r is Err ==> (r matches Err(ServerError::UpstreamSessionError(_))),
    {
        let (mut session, opening) = match new_client_session() {
            Ok(created) => created,
            Err(e) => return Err(ServerError::UpstreamSessionError(e)),
        };
        let mut pending = convert_upstream(opening);
        let ghost app = upstream.app_name@;
        match client_connect(&mut session, upstream.app_name) {
            Ok(request) => pending.push(classify_upstream(request)),
            Err(e) => return Err(ServerError::UpstreamSessionError(e)),
        }
        let mut buffer: Vec<u8> = Vec::new();
        buffer.extend_from_slice(leftover);
        Ok(
            Relay {
                session: Some(session),
                pending,
                buffer,
                key: upstream.key,
                publishing: false,
                connected_to: Ghost(app),
                published: Ghost(Seq::empty()),
                forwarded: Ghost(Seq::empty()),
            },
        )
    }

    /// Appends bytes read from upstream to the input.
    pub fn receive(&mut self, bytes: &[u8])
        ensures
            final(self).buffered() == old(self).buffered() + bytes@,
            final(self).pending() == old(self).pending(),
            final(self).publishing() == old(self).publishing(),
            final(self).lent() == old(self).lent(),
            final(self).key() == old(self).key(),
            final(self).calls() == old(self).calls(),
    {
        self.buffer.extend_from_slice(bytes);
    }

    /// Takes the session back with the outcome of decoding the input of a `Decode`
    /// action; on success its results are queued after those pending.
    pub fn decoded(
        &mut self,
        session: ClientSession,
        outcome: Result<Vec<ClientSessionResult>, ClientSessionError>,
    ) -> (r: Result<(), ServerError>)
        ensures
            !final(self).lent(),
            final(self).publishing() == old(self).publishing(),
            final(self).key() == old(self).key(),
            final(self).calls() == old(self).calls(),
            final(self).buffered() == old(self).buffered(),
            match outcome {
                Ok(raw) => r is Ok && final(self).pending().len() == old(self).pending().len()
                    + raw@.len() && final(self).pending().subrange(
                    0,
                    old(self).pending().len() as int,
                ) == old(self).pending(),
                Err(e) => r == Err::<(), ServerError>(ServerError::UpstreamSessionError(e))
                    && final(self).pending() == old(self).pending(),
            },
    {
        self.session = Some(session);
        match outcome {
            Ok(raw) => {
                let mut more = convert_upstream(raw);
                let ghost before = self.pending@;
                self.pending.append(&mut more);
                assert(self.pending@.subrange(0, before.len() as int) =~= before);
                Ok(())
            },
            Err(e) => Err(ServerError::UpstreamSessionError(e)),
        }
    }

    /// Hands media from the inbound publish to the upstream session, as droppable media.
    /// Before the upstream has accepted the publish the media is dropped and `false`
    /// returned.
    pub fn forward(&mut self, media: Media) -> (r: Result<bool, ServerError>)
        ensures
            final(self).publishing() == old(self).publishing(),
            final(self).key() == old(self).key(),
            final(self).lent() == old(self).lent(),
            final(self).buffered() == old(self).buffered(),
            final(self).calls().0 == old(self).calls().0,
            final(self).calls().1 == old(self).calls().1,
            !old(self).publishing() ==> r == Ok::<bool, ServerError>(false) && final(self).pending()
                == old(self).pending() && final(self).calls() == old(self).calls(),
            old(self).publishing() && old(self).lent() ==> r == Err::<bool, ServerError>(
                ServerError::StateError,
            ) && final(self).calls() == old(self).calls(),
            old(self).publishing() && !old(self).lent() ==> final(self).calls().2 == old(self).calls().2.push(media_view(media)) && (r == Ok::<bool, ServerError>(true)
                && final(self).pending().len() == old(self).pending().len() + 1 && final(self).pending().drop_last() == old(self).pending() || (r matches Err(
                ServerError::UpstreamSessionError(_),
            )) && final(self).pending() == old(self).pending()),
    {
        if !self.publishing {
            return Ok(false);
        }
        let mut session = match self.session.take() {
            Some(s) => s,
            None => return Err(ServerError::StateError),
        };
        let ghost seen = media_view(media);
        let sent = match media {
            Media::Audio(m) => client_audio(&mut session, m.data, m.timestamp, true),
            Media::Video(m) => client_video(&mut session, m.data, m.timestamp, true),
        };
        self.forwarded = Ghost(self.forwarded@.push(seen));
        self.session = Some(session);
        match sent {
            Ok(packet) => {
                self.pending.push(classify_upstream(packet));
                assert(self.pending@.drop_last() =~= old(self).pending@);
                Ok(true)
            },
            Err(e) => Err(ServerError::UpstreamSessionError(e)),
        }
    }

    /// Handles the first pending result: bytes are sent, an accepted connection is
    /// followed by the live publish request under the key (queued first), an accepted
    /// publish starts the forwarding, a refused connection fails the relay. With nothing
    /// pending, buffered input is handed out for decoding.
    pub fn poll(&mut self) -> (r: RelayAction)
        ensures
            final(self).key() == old(self).key(),
            final(self).calls().0 == old(self).calls().0,
            final(self).calls().2 == old(self).calls().2,
            old(self).pending().len() == 0 ==> final(self).pending() == old(self).pending()
                && final(self).publishing() == old(self).publishing() && final(self).calls()
                == old(self).calls() && if old(self).buffered().len() == 0 {
                r == RelayAction::Wait && final(self).lent() == old(self).lent()
            } else if old(self).lent() {
                r == RelayAction::Fail(ServerError::StateError) && final(self).lent()
            } else {
                (r matches RelayAction::Decode { input, .. } && input@ == old(self).buffered())
                    && final(self).lent() && final(self).buffered().len() == 0
            },
            old(self).pending().len() > 0 ==> final(self).buffered() == old(self).buffered() && ({
                let rest = old(self).pending().drop_first();
                match old(self).pending()[0] {
                    UpstreamResult::Outbound(bytes) => r == RelayAction::Send(bytes)
                        && final(self).pending() == rest && final(self).publishing() == old(self).publishing()
                        && final(self).calls() == old(self).calls() && final(self).lent() == old(self).lent(),
                    UpstreamResult::ConnectionAccepted => final(self).publishing() == old(self).publishing()
                        && if old(self).lent() {
                        r == RelayAction::Fail(ServerError::StateError)
                    } else {
                        final(self).calls().1 == old(self).calls().1.push(publish_key(old(self).key()))
                            && (r == RelayAction::Continue && final(self).pending().len() == rest.len() + 1
                            && final(self).pending().drop_first() == rest
                            || (r matches RelayAction::Fail(ServerError::UpstreamSessionError(_))))
                    },
                    UpstreamResult::ConnectionRejected => (r matches RelayAction::Fail(
                        ServerError::ClientError(_),
                    )) && final(self).pending() == rest && final(self).calls() == old(self).calls(),
                    UpstreamResult::PublishAccepted => r == RelayAction::Continue && final(self).publishing()
                        && final(self).pending() == rest && final(self).calls() == old(self).calls()
                        && final(self).lent() == old(self).lent(),
                    UpstreamResult::Other => r == RelayAction::Continue && final(self).pending()
                        == rest && final(self).publishing() == old(self).publishing()
                        && final(self).calls() == old(self).calls() && final(self).lent() == old(self).lent(),
                }
            }),
    {
        if self.pending.len() == 0 {
            if self.buffer.len() == 0 {
                return RelayAction::Wait;
            }
            let session = match self.session.take() {
                Some(s) => s,
                None => return RelayAction::Fail(ServerError::StateError),
            };
            let mut input: Vec<u8> = Vec::new();
            std::mem::swap(&mut input, &mut self.buffer);
            return RelayAction::Decode { session, input };
        }
        let head = self.pending.remove(0);
        match head {
            UpstreamResult::Outbound(bytes) => RelayAction::Send(bytes),
            UpstreamResult::ConnectionAccepted => {
                let mut session = match self.session.take() {
                    Some(s) => s,
                    None => return RelayAction::Fail(ServerError::StateError),
                };
                let key = match &self.key {
                    Some(k) => k.clone(),
                    None => String::new(),
                };
                self.published = Ghost(self.published@.push(key@));
                let requested = client_publish(&mut session, key, PublishKind::Live);
                self.session = Some(session);
                match requested {
                    Ok(request) => {
                        self.pending.insert(0, classify_upstream(request));
                        RelayAction::Continue
                    },
                    Err(e) => RelayAction::Fail(ServerError::UpstreamSessionError(e)),
                }
            },
            UpstreamResult::ConnectionRejected => {
                proof {
                    reveal_strlit("upstream refused the connection");
                }
                RelayAction::Fail(
                    ServerError::ClientError(String::from_str("upstream refused the connection")),
                )
            },
            UpstreamResult::PublishAccepted => {
                self.publishing = true;
                RelayAction::Continue
            },
            UpstreamResult::Other => RelayAction::Continue,
        }
    }
}

} // verus!
