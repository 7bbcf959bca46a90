//! The inbound connection driver: handshake, server session, the cascade that resolves
//! session results into actions, and the registry of routes to outbound relays.
//!
//! The driver performs no I/O. Its owner feeds it the bytes read from the peer with
//! `receive`, asks it for the next action with `poll`, performs that action (write, open a
//! relay, forward media, close) and reports how relay establishment went.
use vstd::prelude::*;

use crate::codec::{
    classify_event, handshake_process, new_handshake, new_server_session, session_accept,
    split_result, HandshakeStep, MediaData, Peer, RawResult, SessionResult,
};
use rml_rtmp::handshake::Handshake;
use rml_rtmp::sessions::{ClientSessionError, ServerSession, ServerSessionError, ServerSessionResult};
use url::ParseError;

verus! {

/// Why a connection, or the relay of one of its publishes, was given up.
pub enum ServerError {
    /// Reading from or writing to a socket failed.
    IoError(String),
    /// The peer closed the connection or failed the handshake.
    SocketClosed,
    /// The server session refused the peer's data or a request.
    ServerSessionError(ServerSessionError),
    /// An event arrived while the connection was in a state that cannot take it.
    StateError,
    /// Relay establishment failed: authentication, or an unusable upstream target.
    ClientError(String),
    /// The upstream URL could not be parsed.
    ParseError(ParseError),
    /// The upstream client session refused data or a request.
    UpstreamSessionError(ClientSessionError),
}

/// The state of one inbound connection.
pub enum ConnectionState {
    Handshaking(Handshake),
    Connecting,
    Connected(ServerSession),
    /// The session is lent to the owner, who decodes the peer's bytes with it.
    Decoding,
    Pulling,
    Closed,
}

/// The state of a connection without the data it holds.
#[derive(PartialEq, Eq, Structural, Clone, Copy, Debug)]
pub enum Phase {
    Handshaking,
    Connecting,
    Connected,
    Decoding,
    Pulling,
    Closed,
}

/// Identifies one publish: the application and the stream key.
pub struct RouteKey {
    pub app_name: String,
    pub stream_key: String,
}

/// An active publish and the handle of the relay that forwards its media.
pub struct Route<H> {
    pub key: RouteKey,
    pub relay: H,
}

/// A publish request waiting for its relay to be established.
pub struct PendingPublish {
    pub request_id: u32,
    pub app_name: String,
    pub stream_key: String,
}

/// Media to hand to a relay.
pub enum Media {
    Audio(MediaData),
    Video(MediaData),
}

/// What the owner of the connection is asked to do next.
pub enum Action {
    /// Write these bytes to the peer and flush them.
    Send(Vec<u8>),
    /// Establish a relay with provider `service` for this publish, then report the
    /// outcome with `relay_opened` or `relay_failed`.
    OpenRelay { service: usize, app_name: String, stream_key: String },
    /// Hand the media to the relay of route `route`.
    Forward { route: usize, media: Media },
    /// Decode `input`, the peer's bytes, with the session's `handle_input`, then hand the
    /// session and the outcome back with `decoded`, or report with `decode_aborted` that
    /// the decoder gave up.
    Decode { session: ServerSession, input: Vec<u8> },
    /// Nothing to do; poll again.
    Continue,
    /// All input is consumed; read more from the peer.
    Wait,
    /// Shut the connection down.
    Close,
    /// The connection failed with this error.
    Fail(ServerError),
}

/// What answering a handshake response asks for: sending it, or nothing where it is empty.
pub open spec fn answer_of(response: Vec<u8>) -> Action {
    if response@.len() > 0 {
        Action::Send(response)
    } else {
        Action::Continue
    }
}

/// The phase, the input left and the action after a successful handshake step: a
/// completed handshake moves to `Connecting` with the bytes that followed it as input; one
/// in progress stays, with its input consumed.
pub open spec fn handshake_outcome(step: HandshakeStep) -> (Phase, Seq<u8>, Action) {
    match step {
        HandshakeStep::InProgress { response } => (
            Phase::Handshaking,
            Seq::empty(),
            answer_of(response),
        ),
        HandshakeStep::Completed { response, remaining } => (
            Phase::Connecting,
            remaining@,
            answer_of(response),
        ),
    }
}

/// What the driver does with a successful handshake step.
pub fn after_handshake(step: HandshakeStep) -> (r: (Phase, Vec<u8>, Action))
    ensures
        (r.0, r.1@, r.2) == handshake_outcome(step),
{
    let (phase, rest, response) = match step {
        HandshakeStep::InProgress { response } => (Phase::Handshaking, Vec::new(), response),
        HandshakeStep::Completed { response, remaining } => (Phase::Connecting, remaining, response),
    };
    let action = if response.len() > 0 {
        Action::Send(response)
    } else {
        Action::Continue
    };
    assert(rest@ =~= handshake_outcome(step).1);
    (phase, rest, action)
}

pub open spec fn route_key_view(k: RouteKey) -> (Seq<char>, Seq<char>) {
    (k.app_name@, k.stream_key@)
}

/// The names of the authentication providers, each at the index its provider has.
pub struct ServiceRegistry {
    names: Vec<String>,
}

impl ServiceRegistry {
    pub closed spec fn names(&self) -> Seq<Seq<char>> {
        self.names@.map_values(|n: String| n@)
    }

    pub fn new() -> (r: Self)
        ensures
            r.names() == Seq::<Seq<char>>::empty(),
    {
        let r = ServiceRegistry { names: Vec::new() };
        assert(r.names() =~= Seq::<Seq<char>>::empty());
        r
    }

    pub fn len(&self) -> (r: usize)
        ensures
            r == self.names().len(),
    {
        self.names.len()
    }

    /// The index of the provider registered as `app_name`.
    pub fn lookup(&self, app_name: &String) -> (r: Option<usize>)
        ensures
            match r {
                Some(i) => i < self.names().len() && self.names()[i as int] == app_name@,
                None => !self.names().contains(app_name@),
            },
    {
        let mut i: usize = 0;
        while i < self.names.len()
            invariant
                i <= self.names@.len(),
                forall|j: int| 0 <= j < i ==> self.names()[j] != app_name@,
            decreases self.names@.len() - i,
        {
            if self.names[i] == *app_name {
                return Some(i);
            }
            i = i + 1;
        }
        None
    }

    /// Registers a provider under `name`; the new index, or `None` where the name is taken.
    pub fn register(&mut self, name: String) -> (r: Option<usize>)
        ensures
            old(self).names().contains(name@) ==> r is None && final(self).names() == old(self).names(),
            !old(self).names().contains(name@) ==> r == Some(old(self).names().len() as usize)
                && final(self).names() == old(self).names().push(name@),
    {
        match self.lookup(&name) {
            Some(_) => None,
            None => {
                let i = self.names.len();
                self.names.push(name);
                assert(self.names() =~= old(self).names().push(name@));
                Some(i)
            },
        }
    }
}

/// Turns a batch of server session results into the driver's own, keeping the order.
fn convert_results(raw: Vec<ServerSessionResult>) -> (r: Vec<SessionResult>)
    ensures
        r@.len() == raw@.len(),
{
    let mut raw = raw;
    let mut out: Vec<SessionResult> = Vec::new();
    let ghost n = raw@.len();
    while raw.len() > 0
        invariant
            out@.len() + raw@.len() == n,
        decreases raw@.len(),
    {
        let item = raw.remove(0);
        let converted = match split_result(item) {
            RawResult::Packet(bytes) => SessionResult::Outbound(bytes),
            RawResult::Event(e) => classify_event(e),
            RawResult::Unhandled => SessionResult::Other,
        };
        out.push(converted);
    }
    out
}

/// One inbound connection: its state, its unprocessed input and session results, and the
/// routes of the publishes it has accepted, each with the relay handle `H`.
pub struct Server<H> {
    services: ServiceRegistry,
    routes: Vec<Route<H>>,
    state: ConnectionState,
    buffer: Vec<u8>,
    pending: Vec<SessionResult>,
    awaiting: Option<PendingPublish>,
    /// Every byte handed to the handshake, in order.
    fed: Ghost<Seq<u8>>,
    /// Each accepted request with the number of results its acceptance produced.
    accepted: Ghost<Seq<(u32, nat)>>,
    /// The number of results of each batch the session produced on opening or decoding.
    batches: Ghost<Seq<nat>>,
}

pub open spec fn phase_of(s: ConnectionState) -> Phase {
    match s {
        ConnectionState::Handshaking(_) => Phase::Handshaking,
        ConnectionState::Connecting => Phase::Connecting,
        ConnectionState::Connected(_) => Phase::Connected,
        ConnectionState::Decoding => Phase::Decoding,
        ConnectionState::Pulling => Phase::Pulling,
        ConnectionState::Closed => Phase::Closed,
    }
}

impl<H> Server<H> {
    /// The keys of the active routes, in the order they were inserted.
    pub closed spec fn routes(&self) -> Seq<(Seq<char>, Seq<char>)> {
        self.routes@.map_values(|r: Route<H>| route_key_view(r.key))
    }

    /// The relay handles of the active routes, index for index with `routes`.
    pub closed spec fn relays(&self) -> Seq<H> {
        self.routes@.map_values(|r: Route<H>| r.relay)
    }

    /// Session results not yet resolved, in the order they will be.
    pub closed spec fn pending(&self) -> Seq<SessionResult> {
        self.pending@
    }

    /// Bytes read from the peer and not yet handed to the handshake or session.
    pub closed spec fn buffered(&self) -> Seq<u8> {
        self.buffer@
    }

    pub closed spec fn services(&self) -> Seq<Seq<char>> {
        self.services.names()
    }

    pub closed spec fn phase(&self) -> Phase {
        phase_of(self.state)
    }

    /// The bytes handed to the handshake, the accepted requests with the number of results
    /// of each acceptance, and the sizes of the batches the session produced.
    pub closed spec fn calls(&self) -> (Seq<u8>, Seq<(u32, nat)>, Seq<nat>) {
        (self.fed@, self.accepted@, self.batches@)
    }

    /// The publish whose relay is being established, if any.
    pub closed spec fn awaiting(&self) -> Option<(u32, Seq<char>, Seq<char>)> {
        match self.awaiting {
            Some(p) => Some((p.request_id, p.app_name@, p.stream_key@)),
            None => None,
        }
    }

    /// No two routes share a key, and a publish being established has no route yet.
    pub closed spec fn wf(&self) -> bool {
        &&& forall|i: int, j: int|
            0 <= i < j < self.routes().len() ==> self.routes()[i] != self.routes()[j]
        &&& match self.awaiting() {
            Some(p) => !self.routes().contains((p.1, p.2)),
            None => true,
        }
    }

    /// Well-formedness rests on the routes and the awaited publish alone.
    proof fn lemma_wf_frame(a: Self, b: Self)
        requires
            a.wf(),
            b.routes() == a.routes(),
            b.awaiting() is None || b.awaiting() == a.awaiting() || (b.awaiting() matches Some(p) && !a.routes().contains(
                (p.1, p.2),
            )),
        ensures
            b.wf(),
    {
        assert(b.routes() =~= a.routes());
    }

    /// A connection that has just been accepted: handshaking, with nothing buffered.
    pub fn new(services: ServiceRegistry) -> (r: Self)
        ensures
            r.wf(),
            r.phase() == Phase::Handshaking,
            r.services() == services.names(),
            r.routes() == Seq::<(Seq<char>, Seq<char>)>::empty(),
            r.pending() == Seq::<SessionResult>::empty(),
            r.buffered() == Seq::<u8>::empty(),
            r.awaiting() is None,
    {
        let r = Server {
            services,
            routes: Vec::new(),
            state: ConnectionState::Handshaking(new_handshake(Peer::Server)),
            buffer: Vec::new(),
            pending: Vec::new(),
            awaiting: None,
            fed: Ghost(Seq::empty()),
            accepted: Ghost(Seq::empty()),
            batches: Ghost(Seq::empty()),
        };
        assert(r.routes() =~= Seq::<(Seq<char>, Seq<char>)>::empty());
        r
    }

    pub fn phase_now(&self) -> (r: Phase)
        ensures
            r == self.phase(),
    {
        match self.state {
            ConnectionState::Handshaking(_) => Phase::Handshaking,
            ConnectionState::Connecting => Phase::Connecting,
            ConnectionState::Connected(_) => Phase::Connected,
            ConnectionState::Decoding => Phase::Decoding,
            ConnectionState::Pulling => Phase::Pulling,
            ConnectionState::Closed => Phase::Closed,
        }
    }

    pub fn route_count(&self) -> (r: usize)
        ensures
            r == self.routes().len(),
    {
        self.routes.len()
    }

    /// The relay handle of route `route`.
    pub fn relay(&self, route: usize) -> (r: &H)
        requires
            route < self.routes().len(),
        ensures
            *r == self.relays()[route as int],
    {
        &self.routes[route]
            .relay
    }

    /// Appends bytes read from the peer to the input.
    pub fn receive(&mut self, bytes: &[u8])
        ensures
            final(self).buffered() == old(self).buffered() + bytes@,
            final(self).pending() == old(self).pending(),
            final(self).routes() == old(self).routes(),
            final(self).relays() == old(self).relays(),
            final(self).phase() == old(self).phase(),
            final(self).awaiting() == old(self).awaiting(),
            final(self).services() == old(self).services(),
            final(self).calls() == old(self).calls(),
            final(self).wf() == old(self).wf(),
    {
        self.buffer.extend_from_slice(bytes);
    }

    /// Puts `results` before the pending session results, in their order.
    pub fn queue_front(&mut self, results: Vec<SessionResult>)
        ensures
            final(self).pending() == results@ + old(self).pending(),
            final(self).buffered() == old(self).buffered(),
            final(self).routes() == old(self).routes(),
            final(self).relays() == old(self).relays(),
            final(self).phase() == old(self).phase(),
            final(self).awaiting() == old(self).awaiting(),
            final(self).services() == old(self).services(),
            final(self).calls() == old(self).calls(),
            final(self).wf() == old(self).wf(),
    {
        let mut front = results;
        front.append(&mut self.pending);
        self.pending = front;
        assert(self.routes() == old(self).routes() && self.awaiting() == old(self).awaiting());
    }

    /// The index of the route `(app_name, stream_key)`.
    pub fn find_route(&self, app_name: &String, stream_key: &String) -> (r: Option<usize>)
        ensures
            match r {
                Some(i) => i < self.routes().len() && self.routes()[i as int] == (
                    app_name@,
                    stream_key@,
                ),
                None => !self.routes().contains((app_name@, stream_key@)),
            },
    {
        let mut i: usize = 0;
        while i < self.routes.len()
            invariant
                i <= self.routes@.len(),
                forall|j: int| 0 <= j < i ==> self.routes()[j] != (app_name@, stream_key@),
            decreases self.routes@.len() - i,
        {
            if self.routes[i].key.app_name == *app_name && self.routes[i].key.stream_key
                == *stream_key {
                return Some(i);
            }
            i = i + 1;
        }
        None
    }

    /// `b` is `a` with only the pending session results changed.
    pub open spec fn same_but_pending(a: Self, b: Self) -> bool {
        &&& Self::same_but_pending_calls(a, b)
        &&& b.calls() == a.calls()
    }

    /// `b` is `a` with only the pending session results and the call logs changed.
    pub open spec fn same_but_pending_calls(a: Self, b: Self) -> bool {
        &&& b.routes() == a.routes()
        &&& b.relays() == a.relays()
        &&& b.phase() == a.phase()
        &&& b.buffered() == a.buffered()
        &&& b.awaiting() == a.awaiting()
        &&& b.services() == a.services()
    }

    /// `b` is `a` closed, with its routes and input kept.
    pub open spec fn closed_from(a: Self, b: Self) -> bool {
        &&& b.phase() == Phase::Closed
        &&& b.routes() == a.routes()
        &&& b.relays() == a.relays()
        &&& b.services() == a.services()
        &&& b.awaiting() == a.awaiting()
        &&& b.calls() == a.calls()
    }

    /// How resolving the session result `head`, taken off the front of the pending ones of
    /// `a`, leaves `b` and what it asks for.
    pub open spec fn resolves(a: Self, b: Self, head: SessionResult, r: Action) -> bool {
        let rest = a.pending().drop_first();
        match head {
            SessionResult::Outbound(bytes) => r == Action::Send(bytes) && b.pending() == rest
                && Self::same_but_pending(a, b),
            SessionResult::ConnectionRequested { request_id, app_name } => if a.phase()
                == Phase::Connected {
                // the acceptance's own results come first, before all that followed `head`
                ||| r == Action::Continue && Self::same_but_pending_calls(a, b) && b.pending().len()
                    >= rest.len() && b.pending().subrange(
                    b.pending().len() - rest.len(),
                    b.pending().len() as int,
                ) == rest && b.calls() == (a.calls().0, a.calls().1.push(
                    (request_id, (b.pending().len() - rest.len()) as nat),
                ), a.calls().2)
                ||| (r matches Action::Fail(ServerError::ServerSessionError(_))) && Self::closed_from(a, b)
            } else {
                r == Action::Fail(ServerError::StateError) && Self::closed_from(a, b)
            },
            SessionResult::PublishRequested { request_id, app_name, stream_key } => if !a.services().contains(app_name@)
                || a.routes().contains((app_name@, stream_key@)) {
                r == Action::Close && Self::closed_from(a, b)
            } else {
                &&& r matches Action::OpenRelay { service, app_name: an, stream_key: sk }
                    && service < a.services().len() && a.services()[service as int] == app_name@
                    && an == app_name && sk == stream_key
                &&& b.awaiting() == Some((request_id, app_name@, stream_key@))
                &&& b.pending() == rest
                &&& b.routes() == a.routes() && b.relays() == a.relays()
                &&& b.phase() == a.phase() && b.buffered() == a.buffered()
                &&& b.services() == a.services()
                &&& b.calls() == a.calls()
            },
            SessionResult::Audio(m) => Self::forwards(a, b, Media::Audio(m), m, r),
            SessionResult::Video(m) => Self::forwards(a, b, Media::Video(m), m, r),
            _ => r == Action::Continue && b.pending() == rest && Self::same_but_pending(a, b),
        }
    }

    /// Media `media` of publish `m` goes to its route where there is one; else it is dropped.
    pub open spec fn forwards(a: Self, b: Self, media: Media, m: MediaData, r: Action) -> bool {
        &&& b.pending() == a.pending().drop_first()
        &&& Self::same_but_pending(a, b)
        &&& if a.routes().contains((m.app_name@, m.stream_key@)) {
            r matches Action::Forward { route, media: md } && route < a.routes().len()
                && a.routes()[route as int] == (m.app_name@, m.stream_key@) && md == media
        } else {
            r == Action::Continue
        }
    }

    /// How a step on the input of `a`, with no session result pending, leaves `b`.
    pub open spec fn advances(a: Self, b: Self, r: Action) -> bool {
        &&& b.routes() == a.routes() && b.relays() == a.relays() && b.services() == a.services()
        &&& b.awaiting() == a.awaiting()
        &&& b.calls().1 == a.calls().1
        &&& match a.phase() {
            Phase::Handshaking => if a.buffered().len() == 0 {
                r == Action::Wait && b == a
            } else {
                // all buffered input goes to the handshake, whose step decides the rest
                &&& b.calls() == (a.calls().0 + a.buffered(), a.calls().1, a.calls().2)
                &&& b.pending() == a.pending()
                &&& {
                    ||| r == Action::Fail(ServerError::SocketClosed) && b.phase() == Phase::Closed
                    ||| exists|step: HandshakeStep|
                        handshake_outcome(step) == (b.phase(), b.buffered(), r)
                }
            },
            Phase::Connecting => {
                ||| r == Action::Continue && b.phase() == Phase::Connected && b.buffered()
                    == a.buffered() && b.calls() == (a.calls().0, a.calls().1, a.calls().2.push(
                    b.pending().len() as nat,
                ))
                ||| (r matches Action::Fail(ServerError::ServerSessionError(_))) && b.phase()
                    == Phase::Closed && b.calls() == a.calls()
            },
            Phase::Connected => if a.buffered().len() == 0 {
                r == Action::Wait && b == a
            } else {
                &&& r matches Action::Decode { input, .. } && input@ == a.buffered()
                &&& b.phase() == Phase::Decoding && b.buffered().len() == 0
                &&& b.pending() == a.pending() && b.calls() == a.calls()
            },
            Phase::Decoding => r == Action::Fail(ServerError::StateError) && b == a,
            _ => r == Action::Wait && b == a,
        }
    }

    /// Takes the next step: resolves the first pending session result if there is one,
    /// else hands the buffered input to the handshake or the session.
    pub fn poll(&mut self) -> (r: Action)
        requires
            old(self).wf(),
        ensures
            final(self).wf(),
            old(self).awaiting() is Some ==> r == Action::Fail(ServerError::StateError)
                && *final(self) == *old(self),
            old(self).awaiting() is None && old(self).phase() == Phase::Closed ==> r
                == Action::Close && *final(self) == *old(self),
            old(self).awaiting() is None && old(self).phase() != Phase::Closed && old(self).pending().len() > 0 ==> Self::resolves(
                *old(self),
                *final(self),
                old(self).pending()[0],
                r,
            ),
            old(self).awaiting() is None && old(self).phase() != Phase::Closed && old(self).pending().len() == 0 ==> Self::advances(*old(self), *final(self), r),
    {
        if self.awaiting.is_some() {
            return Action::Fail(ServerError::StateError);
        }
        if let ConnectionState::Closed = self.state {
            return Action::Close;
        }
        if self.pending.len() > 0 {
            let head = self.pending.remove(0);
            proof {
                Self::lemma_wf_frame(*old(self), *self);
            }
            self.resolve(head)
        } else {
            self.advance()
        }
    }

    /// Closes the connection, keeping the routes.
    fn shut(&mut self)
        ensures
            Self::closed_from(*old(self), *final(self)),
            final(self).pending() == old(self).pending(),
            final(self).buffered() == old(self).buffered(),
            final(self).wf() == old(self).wf(),
    {
        self.state = ConnectionState::Closed;
    }

    fn resolve(&mut self, head: SessionResult) -> (r: Action)
        requires
            old(self).wf(),
            old(self).awaiting() is None,
            old(self).phase() != Phase::Closed,
        ensures
            final(self).wf(),
            forall|a: Self|
                a.pending().len() > 0 && a.pending()[0] == head && a.pending().drop_first()
                    == old(self).pending() && Self::same_but_pending(a, *old(self))
                    ==> #[trigger] Self::resolves(a, *final(self), head, r),
    {
        let r = match head {
            SessionResult::Outbound(bytes) => Action::Send(bytes),
            SessionResult::ConnectionRequested { request_id, app_name } => {
                let mut st = ConnectionState::Closed;
                std::mem::swap(&mut st, &mut self.state);
                match st {
                    ConnectionState::Connected(mut session) => {
                        match session_accept(&mut session, request_id) {
                            Ok(raw) => {
                                let accepted = convert_results(raw);
                                self.accepted = Ghost(
                                    self.accepted@.push((request_id, accepted@.len() as nat)),
                                );
                                self.state = ConnectionState::Connected(session);
                                let ghost rest = self.pending@;
                                self.queue_front(accepted);
                                assert(self.pending().subrange(
                                    self.pending().len() - rest.len(),
                                    self.pending().len() as int,
                                ) =~= rest);
                                Action::Continue
                            },
                            Err(e) => Action::Fail(ServerError::ServerSessionError(e)),
                        }
                    },
                    _ => Action::Fail(ServerError::StateError),
                }
            },
            SessionResult::PublishRequested { request_id, app_name, stream_key } => {
                match self.services.lookup(&app_name) {
                    None => {
                        self.shut();
                        Action::Close
                    },
                    Some(service) => {
                        if self.find_route(&app_name, &stream_key).is_some() {
                            self.shut();
                            Action::Close
                        } else {
                            self.awaiting = Some(
                                PendingPublish {
                                    request_id,
                                    app_name: app_name.clone(),
                                    stream_key: stream_key.clone(),
                                },
                            );
                            Action::OpenRelay { service, app_name, stream_key }
                        }
                    },
                }
            },
            SessionResult::Audio(m) => match self.find_route(&m.app_name, &m.stream_key) {
                Some(route) => Action::Forward { route, media: Media::Audio(m) },
                None => Action::Continue,
            },
            SessionResult::Video(m) => match self.find_route(&m.app_name, &m.stream_key) {
                Some(route) => Action::Forward { route, media: Media::Video(m) },
                None => Action::Continue,
            },
            _ => Action::Continue,
        };
        proof {
            Self::lemma_wf_frame(*old(self), *self);
        }
        r
    }

    /// Hands the buffered input to the handshake or the session, as the state asks.
    fn advance(&mut self) -> (r: Action)
        requires
            old(self).wf(),
            old(self).awaiting() is None,
            old(self).pending().len() == 0,
            old(self).phase() != Phase::Closed,
        ensures
            final(self).wf(),
            Self::advances(*old(self), *final(self), r),
    {
        let mut st = ConnectionState::Closed;
        std::mem::swap(&mut st, &mut self.state);
        let r = match st {
            ConnectionState::Handshaking(mut handshake) => {
                if self.buffer.len() == 0 {
                    self.state = ConnectionState::Handshaking(handshake);
                    proof {
                        Self::lemma_wf_frame(*old(self), *self);
                    }
                    return Action::Wait;
                }
                let mut input: Vec<u8> = Vec::new();
                std::mem::swap(&mut input, &mut self.buffer);
                let result = handshake_process(&mut handshake, input.as_slice());
                self.fed = Ghost(self.fed@ + input@);
                match result {
                    Err(_) => Action::Fail(ServerError::SocketClosed),
                    Ok(step) => {
                        let (phase, rest, action) = after_handshake(step);
                        self.buffer = rest;
                        if phase == Phase::Handshaking {
                            self.state = ConnectionState::Handshaking(handshake);
                        } else {
                            self.state = ConnectionState::Connecting;
                        }
                        action
                    },
                }
            },
            ConnectionState::Connecting => match new_server_session() {
                Ok((session, raw)) => {
                    self.pending = convert_results(raw);
                    self.batches = Ghost(self.batches@.push(self.pending@.len() as nat));
                    self.state = ConnectionState::Connected(session);
                    Action::Continue
                },
                Err(e) => Action::Fail(ServerError::ServerSessionError(e)),
            },
            ConnectionState::Connected(session) => {
                if self.buffer.len() == 0 {
                    self.state = ConnectionState::Connected(session);
                    proof {
                        Self::lemma_wf_frame(*old(self), *self);
                    }
                    return Action::Wait;
                }
                let mut input: Vec<u8> = Vec::new();
                std::mem::swap(&mut input, &mut self.buffer);
                self.state = ConnectionState::Decoding;
                Action::Decode { session, input }
            },
            ConnectionState::Decoding => {
                self.state = ConnectionState::Decoding;
                proof {
                    Self::lemma_wf_frame(*old(self), *self);
                }
                return Action::Fail(ServerError::StateError);
            },
            other => {
                self.state = other;
                Action::Wait
            },
        };
        proof {
            Self::lemma_wf_frame(*old(self), *self);
        }
        r
    }

    /// Takes the session back with the outcome of decoding the input of a `Decode`
    /// action. On success its results become the pending ones, in order.
    pub fn decoded(
        &mut self,
        session: ServerSession,
        outcome: Result<Vec<ServerSessionResult>, ServerSessionError>,
    ) -> (r: Action)
        requires
            old(self).wf(),
        ensures
            final(self).wf(),
            final(self).routes() == old(self).routes(),
            final(self).relays() == old(self).relays(),
            final(self).services() == old(self).services(),
            final(self).awaiting() == old(self).awaiting(),
            old(self).phase() != Phase::Decoding ==> r == Action::Fail(ServerError::StateError)
                && final(self).phase() == Phase::Closed,
            old(self).phase() == Phase::Decoding ==> match outcome {
                Ok(raw) => r == Action::Continue && final(self).phase() == Phase::Connected
                    && final(self).pending() == old(self).pending() + final(self).pending().skip(
                    old(self).pending().len() as int,
                ) && final(self).pending().len() == old(self).pending().len() + raw@.len()
                    && final(self).calls() == (old(self).calls().0, old(self).calls().1, old(self).calls().2.push(raw@.len() as nat)),
                Err(e) => r == Action::Fail(ServerError::ServerSessionError(e)) && final(self).phase() == Phase::Closed,
            },
    {
        let decoding = match self.state {
            ConnectionState::Decoding => true,
            _ => false,
        };
        if !decoding {
            self.state = ConnectionState::Closed;
            proof {
                Self::lemma_wf_frame(*old(self), *self);
            }
            return Action::Fail(ServerError::StateError);
        }
        let r = match outcome {
            Ok(raw) => {
                let ghost n = raw@.len();
                let mut results = convert_results(raw);
                self.batches = Ghost(self.batches@.push(n as nat));
                let ghost before = self.pending@;
                self.pending.append(&mut results);
                assert(self.pending@.skip(before.len() as int) =~= self.pending@.subrange(
                    before.len() as int,
                    self.pending@.len() as int,
                ));
                assert(self.pending@ =~= before + self.pending@.skip(before.len() as int));
                self.state = ConnectionState::Connected(session);
                Action::Continue
            },
            Err(e) => {
                self.state = ConnectionState::Closed;
                Action::Fail(ServerError::ServerSessionError(e))
            },
        };
        proof {
            Self::lemma_wf_frame(*old(self), *self);
        }
        r
    }

    /// Reports that decoding the input of a `Decode` action was given up (the decoder
    /// broke down on the peer's bytes): the connection closes.
    pub fn decode_aborted(&mut self) -> (r: Action)
        requires
            old(self).wf(),
        ensures
            final(self).wf(),
            r == Action::Fail(ServerError::SocketClosed),
            Self::closed_from(*old(self), *final(self)),
    {
        self.state = ConnectionState::Closed;
        proof {
            Self::lemma_wf_frame(*old(self), *self);
        }
        Action::Fail(ServerError::SocketClosed)
    }

    /// How reporting relay `relay` established for the publish awaited by `a` leaves `b`:
    /// on acceptance the route is inserted and the acceptance's results come before the
    /// results that were pending.
    pub open spec fn opens(a: Self, b: Self, relay: H, r: Action) -> bool {
        let p = a.awaiting()->Some_0;
        &&& b.awaiting() is None
        &&& b.services() == a.services()
        &&& if a.phase() == Phase::Connected {
            ||| r == Action::Continue && b.phase() == Phase::Connected && b.routes() == a.routes().push(
                (p.1, p.2),
            ) && b.relays() == a.relays().push(relay) && b.buffered() == a.buffered()
                && b.pending().len() >= a.pending().len() && b.pending().subrange(
                b.pending().len() - a.pending().len(),
                b.pending().len() as int,
            ) == a.pending() && b.calls() == (a.calls().0, a.calls().1.push(
                (p.0, (b.pending().len() - a.pending().len()) as nat),
            ), a.calls().2)
            ||| (r matches Action::Fail(ServerError::ServerSessionError(_))) && b.phase() == Phase::Closed && b.routes() == a.routes() && b.relays()
                == a.relays()
        } else {
            r == Action::Fail(ServerError::StateError) && b.phase() == Phase::Closed && b.routes()
                == a.routes() && b.relays() == a.relays()
        }
    }

    /// Reports that the relay of the awaited publish is established: the publish is
    /// accepted and its route inserted.
    pub fn relay_opened(&mut self, relay: H) -> (r: Action)
        requires
            old(self).wf(),
        ensures
            final(self).wf(),
            final(self).services() == old(self).services(),
            old(self).awaiting() is None ==> r == Action::Fail(ServerError::StateError)
                && *final(self) == *old(self),
            old(self).awaiting() is Some ==> Self::opens(*old(self), *final(self), relay, r),
    {
        let mut awaited: Option<PendingPublish> = None;
        std::mem::swap(&mut awaited, &mut self.awaiting);
        let publish = match awaited {
            None => {
                self.awaiting = awaited;
                return Action::Fail(ServerError::StateError);
            },
            Some(p) => p,
        };
        let mut st = ConnectionState::Closed;
        std::mem::swap(&mut st, &mut self.state);
        proof {
            Self::lemma_wf_frame(*old(self), *self);
        }
        match st {
            ConnectionState::Connected(mut session) => match session_accept(
                &mut session,
                publish.request_id,
            ) {
                Ok(raw) => {
                    let accepted = convert_results(raw);
                    self.accepted = Ghost(
                        self.accepted@.push((publish.request_id, accepted@.len() as nat)),
                    );
                    self.state = ConnectionState::Connected(session);
                    let ghost before = *self;
                    self.routes.push(
                        Route {
                            key: RouteKey {
                                app_name: publish.app_name,
                                stream_key: publish.stream_key,
                            },
                            relay,
                        },
                    );
                    assert(self.routes() =~= before.routes().push((publish.app_name@, publish.stream_key@)));
                    assert(self.relays() =~= before.relays().push(relay));
                    let ghost rest = self.pending@;
                    self.queue_front(accepted);
                    assert(self.pending().subrange(
                        self.pending().len() - rest.len(),
                        self.pending().len() as int,
                    ) =~= rest);
                    Action::Continue
                },
                Err(e) => Action::Fail(ServerError::ServerSessionError(e)),
            },
            _ => Action::Fail(ServerError::StateError),
        }
    }

    /// Reports that the relay of the awaited publish could not be established: the
    /// publish is not accepted, no route is made and the connection closes.
    pub fn relay_failed(&mut self)
        requires
            old(self).wf(),
        ensures
            final(self).wf(),
            final(self).phase() == Phase::Closed,
            final(self).awaiting() is None,
            final(self).routes() == old(self).routes(),
            final(self).relays() == old(self).relays(),
            final(self).services() == old(self).services(),
    {
        self.awaiting = None;
        self.state = ConnectionState::Closed;
        proof {
            Self::lemma_wf_frame(*old(self), *self);
        }
    }

    /// Removes route `route`, whose relay has ended, and hands its handle back.
    pub fn relay_ended(&mut self, route: usize) -> (r: H)
        requires
            old(self).wf(),
            route < old(self).routes().len(),
        ensures
            final(self).wf(),
            r == old(self).relays()[route as int],
            final(self).routes() == old(self).routes().remove(route as int),
            final(self).relays() == old(self).relays().remove(route as int),
            final(self).phase() == old(self).phase(),
            final(self).pending() == old(self).pending(),
            final(self).buffered() == old(self).buffered(),
            final(self).awaiting() == old(self).awaiting(),
            final(self).services() == old(self).services(),
    {
        let removed = self.routes.remove(route);
        assert(self.routes() =~= old(self).routes().remove(route as int));
        assert(self.relays() =~= old(self).relays().remove(route as int));
        proof {
            let a = old(self).routes();
            assert forall|i: int, j: int| 0 <= i < j < self.routes().len() implies self.routes()[i]
                != self.routes()[j] by {
                if j < route {
                } else if i < route {
                    assert(self.routes()[j] == a[j + 1]);
                } else {
                    assert(self.routes()[i] == a[i + 1] && self.routes()[j] == a[j + 1]);
                }
            }
            match self.awaiting() {
                Some(p) => {
                    if self.routes().contains((p.1, p.2)) {
                        let k = choose|k: int| 0 <= k < self.routes().len() && self.routes()[k] == (p.1, p.2);
                        if k < route {
                            assert(a[k] == (p.1, p.2));
                        } else {
                            assert(a[k + 1] == (p.1, p.2));
                        }
                    }
                },
                None => {},
            }
        }
        removed.relay
    }

    /// Tears the connection down: it is closed and every route is removed; the relay
    /// handles are handed back.
    pub fn close(&mut self) -> (r: Vec<H>)
        requires
            old(self).wf(),
        ensures
            final(self).wf(),
            r@ == old(self).relays(),
            final(self).phase() == Phase::Closed,
            final(self).routes() == Seq::<(Seq<char>, Seq<char>)>::empty(),
            final(self).pending() == Seq::<SessionResult>::empty(),
            final(self).awaiting() is None,
            final(self).services() == old(self).services(),
    {
        let mut relays: Vec<H> = Vec::new();
        let ghost all = old(self).relays();
        assert(all =~= relays@ + self.relays());
        while self.routes.len() > 0
            invariant
                all == relays@ + self.relays(),
                self.services() == old(self).services(),
            decreases self.routes@.len(),
        {
            let ghost prev = self.relays();
            let route = self.routes.remove(0);
            assert(self.relays() =~= prev.drop_first());
            relays.push(route.relay);
            assert(all =~= relays@ + self.relays());
        }
        self.state = ConnectionState::Closed;
        self.pending = Vec::new();
        self.awaiting = None;
        assert(self.routes() =~= Seq::<(Seq<char>, Seq<char>)>::empty());
        relays
    }

    /// Accepting a connection request queues the acceptance's own results ahead of every
    /// result that followed the request in its batch, so they are written first.
    pub proof fn lemma_acceptance_goes_first(a: Self, b: Self, request_id: u32, app_name: String, r: Action)
        requires
            a.phase() == Phase::Connected,
            a.pending().len() > 0,
            a.pending()[0] == (SessionResult::ConnectionRequested { request_id, app_name }),
            Self::resolves(a, b, a.pending()[0], r),
            r == Action::Continue,
        ensures
            exists|accepted: Seq<SessionResult>| b.pending() == accepted + a.pending().drop_first(),
    {
        let rest = a.pending().drop_first();
        let accepted = b.pending().subrange(0, b.pending().len() - rest.len());
        assert(b.pending() =~= accepted + rest);
    }

    /// A publish request for an application that no provider is registered under closes
    /// the connection and creates no route.
    pub proof fn lemma_unregistered_publish_closes(
        a: Self,
        b: Self,
        request_id: u32,
        app_name: String,
        stream_key: String,
        r: Action,
    )
        requires
            a.pending().len() > 0,
            a.pending()[0] == (SessionResult::PublishRequested { request_id, app_name, stream_key }),
            !a.services().contains(app_name@),
            Self::resolves(a, b, a.pending()[0], r),
        ensures
            r == Action::Close,
            b.phase() == Phase::Closed,
            b.routes() == a.routes(),
            b.awaiting() == a.awaiting(),
    {
    }

    /// An accepted publish has exactly one route, under its application and stream key,
    /// placed after the routes that were there before.
    pub proof fn lemma_publish_inserts_one_route(a: Self, b: Self, relay: H, r: Action)
        requires
            a.wf(),
            a.awaiting() is Some,
            Self::opens(a, b, relay, r),
            r == Action::Continue,
        ensures
            ({
                let p = a.awaiting()->Some_0;
                &&& b.routes().len() == a.routes().len() + 1
                &&& forall|i: int|
                    0 <= i < b.routes().len() ==> (b.routes()[i] == (p.1, p.2) <==> i == a.routes().len())
            }),
    {
        let p = a.awaiting()->Some_0;
        assert forall|i: int| 0 <= i < b.routes().len() implies (b.routes()[i] == (p.1, p.2) <==> i
            == a.routes().len()) by {
            if i < a.routes().len() {
                assert(b.routes()[i] == a.routes()[i]);
                assert(a.routes().contains(a.routes()[i]));
            }
        }
    }

    /// Once the relay of a route has ended and the route is removed, no route of that key
    /// is left.
    pub proof fn lemma_ended_route_is_gone(a: Self, b: Self, route: int)
        requires
            a.wf(),
            0 <= route < a.routes().len(),
            b.routes() == a.routes().remove(route),
        ensures
            !b.routes().contains(a.routes()[route]),
    {
        if b.routes().contains(a.routes()[route]) {
            let k = choose|k: int| 0 <= k < b.routes().len() && b.routes()[k] == a.routes()[route];
            if k < route {
                assert(a.routes()[k] == a.routes()[route]);
            } else {
                assert(a.routes()[k + 1] == a.routes()[route]);
            }
        }
    }

    /// Media of a publish that has no route is dropped: nothing is forwarded, nothing
    /// fails, and the next pending result is up.
    pub proof fn lemma_unroutable_media_dropped(a: Self, b: Self, m: MediaData, r: Action)
        requires
            a.pending().len() > 0,
            a.pending()[0] == SessionResult::Audio(m) || a.pending()[0] == SessionResult::Video(m),
            !a.routes().contains((m.app_name@, m.stream_key@)),
            Self::resolves(a, b, a.pending()[0], r),
        ensures
            r == Action::Continue,
            b.pending() == a.pending().drop_first(),
            b.routes() == a.routes(),
            b.phase() == a.phase(),
    {
    }
}

} // verus!
