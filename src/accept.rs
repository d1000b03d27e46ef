use vstd::prelude::*;
use tokio::net::TcpListener;
use tokio_rustls::TlsAcceptor;
use crate::handshake::{
    HandshakeManager, HandshakeOutcome, PendingHandshake, SubmitError, add_capped, later,
    lemma_submission_never_waits, lemma_zero_timeout_never_succeeds,
};
use crate::peer::PeerAddr;
use crate::stream::{HttpOrHttpsStream, StreamKind};

verus! {

/// The handshake timeout used unless another is configured, in milliseconds.
pub open spec fn default_timeout_ms() -> u64 {
    10_000
}

/// Relies on `tls_listener::DEFAULT_HANDSHAKE_TIMEOUT`, which is ten seconds.
#[verifier::external_body]
pub(crate) fn default_handshake_timeout_ms() -> (r: u64)
    ensures
        r == default_timeout_ms(),
{
    tls_listener::DEFAULT_HANDSHAKE_TIMEOUT.as_millis() as u64
}

/// Error when accepting connections.
#[derive(Debug)]
pub enum AcceptorError {
    /// Failed to connect to client over TCP.
    TcpConnect(std::io::Error),
    /// Failed to make TLS handshake with client.
    TlsHandshake(std::io::Error),
    /// The TLS handshake did not finish before its deadline; the connection was
    /// dropped. This is routine, not a fault of the acceptor.
    HandshakeTimeout,
    /// Hyper failed to serve connection.
    Hyper(hyper::Error),
}

impl AcceptorError {
    /// A short description of the error.
    pub fn message(&self) -> (r: &'static str)
        ensures
            self is TcpConnect ==> r@ == "TCP connection to client failed"@,
            self is TlsHandshake ==> r@ == "TLS handshake with client failed"@,
            self is HandshakeTimeout ==> r@ == "TLS handshake with client timed out"@,
            self is Hyper ==> r@ == "Failed to serve HTTP connection"@,
    {
        match self {
            AcceptorError::TcpConnect(_) => "TCP connection to client failed",
            AcceptorError::TlsHandshake(_) => "TLS handshake with client failed",
            AcceptorError::HandshakeTimeout => "TLS handshake with client timed out",
            AcceptorError::Hyper(_) => "Failed to serve HTTP connection",
        }
    }
}

/// The stream for an accepted plain connection: the socket itself, with no handshake.
pub fn plain_stream(tcp: tokio::net::TcpStream) -> (r: HttpOrHttpsStream)
    ensures
        r == HttpOrHttpsStream::Http(tcp),
        r.spec_kind() == StreamKind::Plain,
{
    HttpOrHttpsStream::Http(tcp)
}

/// The stream for a finished handshake, or the handshake error it ended with.
pub fn secure_stream(
    handshake: Result<tokio_rustls::server::TlsStream<tokio::net::TcpStream>, std::io::Error>,
) -> (r: Result<HttpOrHttpsStream, AcceptorError>)
    ensures
        handshake matches Ok(t) ==> r == Ok::<HttpOrHttpsStream, AcceptorError>(HttpOrHttpsStream::Https(t)),
        handshake matches Err(e) ==> r == Err::<HttpOrHttpsStream, AcceptorError>(AcceptorError::TlsHandshake(e)),
{
    match handshake {
        Ok(tls) => Ok(HttpOrHttpsStream::Https(tls)),
        Err(e) => Err(AcceptorError::TlsHandshake(e)),
    }
}

/// What a handshake comes to, given how the handshake manager classified it:
/// a timed-out (or no longer tracked) handshake is dropped whatever it returned,
/// and otherwise the result is that of `secure_stream`.
pub fn finish_handshake(
    outcome: HandshakeOutcome,
    handshake: Result<tokio_rustls::server::TlsStream<tokio::net::TcpStream>, std::io::Error>,
) -> (r: Result<HttpOrHttpsStream, AcceptorError>)
    ensures
        (outcome is TimedOut || outcome is NotInFlight) ==> r == Err::<HttpOrHttpsStream, AcceptorError>(AcceptorError::HandshakeTimeout),
        (outcome is Succeeded || outcome is Failed) ==> {
            &&& handshake matches Ok(t) ==> r == Ok::<HttpOrHttpsStream, AcceptorError>(HttpOrHttpsStream::Https(t))
            &&& handshake matches Err(e) ==> r == Err::<HttpOrHttpsStream, AcceptorError>(AcceptorError::TlsHandshake(e))
        },
{
    match outcome {
        HandshakeOutcome::TimedOut(_) | HandshakeOutcome::NotInFlight => Err(AcceptorError::HandshakeTimeout),
        _ => secure_stream(handshake),
    }
}

/// The result of serving a connection, with hyper's error carried.
pub fn served(result: Result<(), hyper::Error>) -> (r: Result<(), AcceptorError>)
    ensures
        result is Ok ==> r == Ok::<(), AcceptorError>(()),
        result matches Err(e) ==> r == Err::<(), AcceptorError>(AcceptorError::Hyper(e)),
{
    match result {
        Ok(()) => Ok(()),
        Err(e) => Err(AcceptorError::Hyper(e)),
    }
}

/// The result of a raw accept, with the I/O error carried.
pub fn accepted<T>(result: Result<T, std::io::Error>) -> (r: Result<T, AcceptorError>)
    ensures
        result matches Ok(v) ==> r == Ok::<T, AcceptorError>(v),
        result matches Err(e) ==> r == Err::<T, AcceptorError>(AcceptorError::TcpConnect(e)),
{
    match result {
        Ok(v) => Ok(v),
        Err(e) => Err(AcceptorError::TcpConnect(e)),
    }
}

/// Accept either HTTP or HTTPS connections on one listener; which one is fixed
/// when the acceptor is made.
pub struct HttpOrHttpsAcceptor {
    listener: TcpListener,
    tls: Option<TlsAcceptor>,
    handshake_timeout_ms: u64,
}

impl HttpOrHttpsAcceptor {
    pub closed spec fn spec_listener(&self) -> TcpListener {
        self.listener
    }

    pub closed spec fn spec_tls(&self) -> Option<TlsAcceptor> {
        self.tls
    }

    pub open spec fn spec_mode(&self) -> StreamKind {
        if self.spec_tls() is Some {
            StreamKind::Secure
        } else {
            StreamKind::Plain
        }
    }

    pub closed spec fn spec_handshake_timeout(&self) -> u64 {
        self.handshake_timeout_ms
    }

    /// Creates an acceptor that serves HTTP only, on the given listener.
    pub fn new(listener: TcpListener) -> (r: HttpOrHttpsAcceptor)
        ensures
            r.spec_listener() == listener,
            r.spec_tls() == None::<TlsAcceptor>,
            r.spec_mode() == StreamKind::Plain,
            r.spec_handshake_timeout() == default_timeout_ms(),
    {
        HttpOrHttpsAcceptor { listener, tls: None, handshake_timeout_ms: default_handshake_timeout_ms() }
    }

    /// Configures this acceptor to serve HTTPS using the provided `TlsAcceptor`.
    pub fn with_tls(self, tls: TlsAcceptor) -> (r: HttpOrHttpsAcceptor)
        ensures
            r.spec_listener() == self.spec_listener(),
            r.spec_tls() == Some(tls),
            r.spec_mode() == StreamKind::Secure,
            r.spec_handshake_timeout() == self.spec_handshake_timeout(),
    {
        HttpOrHttpsAcceptor { listener: self.listener, tls: Some(tls), handshake_timeout_ms: self.handshake_timeout_ms }
    }

    /// An acceptor that serves HTTPS with the given handshake timeout.
    pub(crate) fn secure(listener: TcpListener, tls: TlsAcceptor, handshake_timeout_ms: u64) -> (r: HttpOrHttpsAcceptor)
        ensures
            r.spec_listener() == listener,
            r.spec_tls() == Some(tls),
            r.spec_mode() == StreamKind::Secure,
            r.spec_handshake_timeout() == handshake_timeout_ms,
    {
        HttpOrHttpsAcceptor { listener, tls: Some(tls), handshake_timeout_ms }
    }

    /// Whether connections are served plain or secure.
    pub fn mode(&self) -> (r: StreamKind)
        ensures
            r == self.spec_mode(),
    {
        match &self.tls {
            Some(_) => StreamKind::Secure,
            None => StreamKind::Plain,
        }
    }

    /// The time a handshake may take, in milliseconds.
    pub fn handshake_timeout_ms(&self) -> (r: u64)
        ensures
            r == self.spec_handshake_timeout(),
    {
        self.handshake_timeout_ms
    }

    /// The listening socket.
    pub fn listener(&self) -> (r: &TcpListener)
        ensures
            *r == self.spec_listener(),
    {
        &self.listener
    }

    /// The security context, present exactly in secure mode.
    pub fn tls(&self) -> (r: &Option<TlsAcceptor>)
        ensures
            *r == self.spec_tls(),
            r is Some <==> self.spec_mode() == StreamKind::Secure,
    {
        &self.tls
    }

    /// The decision state of the accept loop for this acceptor, with an
    /// optional bound on the handshakes in flight.
    pub fn accept_loop(&self, max_in_flight: Option<usize>) -> (r: AcceptLoop)
        ensures
            r.wf(),
            r.mode == self.spec_mode(),
            r.handshakes.pending().len() == 0,
            r.handshakes.timeout() == self.spec_handshake_timeout(),
            r.handshakes.capacity() == max_in_flight,
            r.handshakes.clock() == 0,
            r.handshakes.submitted_count() == 0,
            r.handshakes.succeeded_count() == 0,
            r.handshakes.failed_count() == 0,
            r.handshakes.timed_out_count() == 0,
    {
        AcceptLoop::new(self.mode(), self.handshake_timeout_ms, max_in_flight)
    }

    /// The handshake state for one connection accepted at `now_ms` outside the
    /// accept loop: its handshake is in flight, bounded by this acceptor's timeout.
    pub fn single_handshake(&self, peer: PeerAddr, now_ms: u64) -> (r: HandshakeManager)
        ensures
            r.wf(),
            r.timeout() == self.spec_handshake_timeout(),
            r.clock() == now_ms,
            r.pending() == seq![
                PendingHandshake { id: 0, peer, deadline_ms: add_capped(now_ms, self.spec_handshake_timeout()) },
            ],
    {
        let mut m = HandshakeManager::new(self.handshake_timeout_ms, Some(1));
        let _ = m.submit(0, peer, now_ms);
        assert(m.pending() == seq![
            PendingHandshake { id: 0, peer, deadline_ms: add_capped(now_ms, self.spec_handshake_timeout()) },
        ]);
        m
    }
}

/// What happened on the accept loop's side.
#[derive(Clone, Copy, Debug, PartialEq, Eq, Structural)]
pub enum AcceptEvent {
    /// A raw connection arrived; `conn` is the caller's identifier for it.
    RawAccepted { conn: u64, peer: PeerAddr },
    /// Accepting a raw connection failed.
    RawAcceptFailed,
    /// The handshake of `conn` ended, well or not.
    HandshakeFinished { conn: u64, ok: bool },
    /// The earliest handshake deadline has come.
    DeadlineReached,
}

/// What the caller must do next.
#[derive(Clone, Copy, Debug, PartialEq, Eq, Structural)]
pub enum AcceptAction {
    /// Drive the connection with the application handler, in its own task.
    Serve { conn: u64, peer: PeerAddr, kind: StreamKind },
    /// Start the handshake of `conn` in its own task; it must end by `deadline_ms`.
    StartHandshake { conn: u64, peer: PeerAddr, deadline_ms: u64 },
    /// Close `conn` without a handshake: it could not be taken in.
    Refuse { conn: u64, peer: PeerAddr, reason: SubmitError },
    /// Report a failed raw accept to the error sink; the loop goes on.
    ReportAcceptError,
    /// Report a failed handshake to the error sink and close `conn`.
    ReportHandshakeError { conn: u64, peer: PeerAddr },
    /// Close `conn` silently: its handshake took too long.
    DropTimedOut { conn: u64, peer: PeerAddr },
}

/// The actions for an event in plain mode: no handshake is ever involved.
pub open spec fn plain_actions(event: AcceptEvent) -> Seq<AcceptAction> {
    match event {
        AcceptEvent::RawAccepted { conn, peer } => seq![
            AcceptAction::Serve { conn, peer, kind: StreamKind::Plain },
        ],
        AcceptEvent::RawAcceptFailed => seq![AcceptAction::ReportAcceptError],
        _ => Seq::empty(),
    }
}

/// The actions for the way a handshake ended.
pub open spec fn outcome_actions(o: HandshakeOutcome) -> Seq<AcceptAction> {
    match o {
        HandshakeOutcome::Succeeded(p) => seq![
            AcceptAction::Serve { conn: p.id, peer: p.peer, kind: StreamKind::Secure },
        ],
        HandshakeOutcome::Failed(p) => seq![
            AcceptAction::ReportHandshakeError { conn: p.id, peer: p.peer },
        ],
        HandshakeOutcome::TimedOut(p) => seq![AcceptAction::DropTimedOut { conn: p.id, peer: p.peer }],
        HandshakeOutcome::NotInFlight => Seq::empty(),
    }
}

pub open spec fn drop_action(p: PendingHandshake) -> AcceptAction {
    AcceptAction::DropTimedOut { conn: p.id, peer: p.peer }
}

/// The actions for a raw connection in secure mode, given what the handshake
/// manager made of it.
pub open spec fn submit_actions(conn: u64, peer: PeerAddr, s: Result<u64, SubmitError>) -> Seq<AcceptAction> {
    match s {
        Ok(d) => seq![AcceptAction::StartHandshake { conn, peer, deadline_ms: d }],
        Err(e) => seq![AcceptAction::Refuse { conn, peer, reason: e }],
    }
}

/// The decisions of the accept loop: from each event to the actions that follow.
///
/// The caller accepts raw connections, runs handshakes and connection drivers
/// in tasks of their own, and reports what happened; this state never waits.
pub struct AcceptLoop {
    pub mode: StreamKind,
    pub handshakes: HandshakeManager,
}

impl AcceptLoop {
    pub open spec fn wf(&self) -> bool {
        self.handshakes.wf()
    }

    /// A loop in `mode`, with handshakes bounded by `timeout_ms`.
    pub fn new(mode: StreamKind, timeout_ms: u64, max_in_flight: Option<usize>) -> (r: AcceptLoop)
        ensures
            r.wf(),
            r.mode == mode,
            r.handshakes.pending().len() == 0,
            r.handshakes.timeout() == timeout_ms,
            r.handshakes.capacity() == max_in_flight,
            r.handshakes.clock() == 0,
            r.handshakes.submitted_count() == 0,
            r.handshakes.succeeded_count() == 0,
            r.handshakes.failed_count() == 0,
            r.handshakes.timed_out_count() == 0,
    {
        AcceptLoop { mode, handshakes: HandshakeManager::new(timeout_ms, max_in_flight) }
    }

    /// Takes in one event, observed at `now_ms`, and returns what to do.
    pub fn step(&mut self, event: AcceptEvent, now_ms: u64) -> (r: Vec<AcceptAction>)
        requires
            old(self).wf(),
        ensures
            final(self).wf(),
            final(self).mode == old(self).mode,
            final(self).handshakes.timeout() == old(self).handshakes.timeout(),
            final(self).handshakes.capacity() == old(self).handshakes.capacity(),
            old(self).mode == StreamKind::Plain ==> r@ == plain_actions(event)
                && final(self).handshakes == old(self).handshakes,
            old(self).mode == StreamKind::Secure ==> match event {
                AcceptEvent::RawAccepted { conn, peer } => {
                    &&& r@ == submit_actions(conn, peer, old(self).handshakes.submit_result(conn, now_ms))
                    &&& old(self).handshakes.submit_post(final(self).handshakes, conn, peer, now_ms)
                },
                AcceptEvent::RawAcceptFailed => {
                    &&& r@ == seq![AcceptAction::ReportAcceptError]
                    &&& final(self).handshakes == old(self).handshakes
                },
                AcceptEvent::HandshakeFinished { conn, ok } => {
                    &&& r@ == outcome_actions(old(self).handshakes.complete_result(conn, ok, now_ms))
                    &&& old(self).handshakes.complete_post(final(self).handshakes, conn, ok, now_ms)
                },
                AcceptEvent::DeadlineReached => {
                    &&& r@ == old(self).handshakes.expired_at(now_ms).map_values(
                        |p: PendingHandshake| drop_action(p),
                    )
                    &&& old(self).handshakes.expire_post(final(self).handshakes, now_ms)
                },
            },
    {
        match self.mode {
            StreamKind::Plain => match event {
                AcceptEvent::RawAccepted { conn, peer } => vec![
                    AcceptAction::Serve { conn, peer, kind: StreamKind::Plain },
                ],
                AcceptEvent::RawAcceptFailed => vec![AcceptAction::ReportAcceptError],
                _ => Vec::new(),
            },
            StreamKind::Secure => match event {
                AcceptEvent::RawAccepted { conn, peer } => match self.handshakes.submit(conn, peer, now_ms) {
                    Ok(d) => vec![AcceptAction::StartHandshake { conn, peer, deadline_ms: d }],
                    Err(e) => vec![AcceptAction::Refuse { conn, peer, reason: e }],
                },
                AcceptEvent::RawAcceptFailed => vec![AcceptAction::ReportAcceptError],
                AcceptEvent::HandshakeFinished { conn, ok } => {
                    let o = self.handshakes.complete(conn, ok, now_ms);
                    match o {
                        HandshakeOutcome::Succeeded(p) => vec![
                            AcceptAction::Serve { conn: p.id, peer: p.peer, kind: StreamKind::Secure },
                        ],
                        HandshakeOutcome::Failed(p) => vec![
                            AcceptAction::ReportHandshakeError { conn: p.id, peer: p.peer },
                        ],
                        HandshakeOutcome::TimedOut(p) => vec![
                            AcceptAction::DropTimedOut { conn: p.id, peer: p.peer },
                        ],
                        HandshakeOutcome::NotInFlight => Vec::new(),
                    }
                },
                AcceptEvent::DeadlineReached => {
                    let expired = self.handshakes.expire(now_ms);
                    let mut out: Vec<AcceptAction> = Vec::new();
                    let mut i: usize = 0;
                    while i < expired.len()
                        invariant
                            i <= expired@.len(),
                            out@ == expired@.take(i as int).map_values(|p: PendingHandshake| drop_action(p)),
                        decreases expired@.len() - i,
                    {
                        let p = expired[i];
                        out.push(AcceptAction::DropTimedOut { conn: p.id, peer: p.peer });
                        assert(expired@.take(i as int + 1) == expired@.take(i as int).push(p));
                        i = i + 1;
                    }
                    assert(expired@.take(expired@.len() as int) == expired@);
                    out
                },
            },
        }
    }
}

/// In plain mode the accept loop never starts a handshake: a raw connection is
/// served as soon as it arrives.
pub proof fn lemma_plain_never_handshakes(event: AcceptEvent)
    ensures
        forall|i: int| 0 <= i < plain_actions(event).len() ==> !(#[trigger] plain_actions(event)[i] is StartHandshake),
        event matches AcceptEvent::RawAccepted { conn, peer } ==> plain_actions(event) == seq![
            AcceptAction::Serve { conn, peer, kind: StreamKind::Plain },
        ],
{
}

/// In secure mode with a timeout of zero, a handshake that ends is always
/// dropped as timed out, never served, however fast it was.
pub proof fn lemma_zero_timeout_always_drops(l: AcceptLoop, conn: u64, ok: bool, now_ms: u64)
    requires
        l.wf(),
        l.mode == StreamKind::Secure,
        l.handshakes.timeout() == 0,
        l.handshakes.is_in_flight(conn),
    ensures
        outcome_actions(l.handshakes.complete_result(conn, ok, now_ms)) == seq![
            AcceptAction::DropTimedOut {
                conn,
                peer: l.handshakes.pending()[l.handshakes.index_of(conn)].peer,
            },
        ],
{
    lemma_zero_timeout_never_succeeds(l.handshakes, conn, ok, now_ms);
}

/// In secure mode a new raw connection starts its handshake at once, however
/// many handshakes are in flight and however slow they are, unless the
/// configured bound is reached.
pub proof fn lemma_new_client_not_blocked(l: AcceptLoop, conn: u64, peer: PeerAddr, now_ms: u64)
    requires
        l.wf(),
        l.mode == StreamKind::Secure,
        !l.handshakes.is_in_flight(conn),
        !l.handshakes.is_full(),
        l.handshakes.submitted_count() < u64::MAX,
    ensures
        submit_actions(conn, peer, l.handshakes.submit_result(conn, now_ms)) == seq![
            AcceptAction::StartHandshake {
                conn,
                peer,
                deadline_ms: add_capped(later(l.handshakes.clock(), now_ms), l.handshakes.timeout()),
            },
        ],
{
    lemma_submission_never_waits(l.handshakes, conn, now_ms);
}

} // verus!
