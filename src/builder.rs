use vstd::prelude::*;
use tokio::net::TcpListener;
use tokio_rustls::TlsAcceptor;
use crate::accept::{HttpOrHttpsAcceptor, default_handshake_timeout_ms, default_timeout_ms};
use crate::stream::StreamKind;

verus! {

/// The builder's state while it is set to accept HTTP.
pub struct Http;

/// The builder's state once it is set to accept HTTPS.
pub struct Https {
    tls_acceptor: TlsAcceptor,
    timeout_ms: u64,
}

/// Builds an `HttpOrHttpsAcceptor`.
///
/// Defaults to accepting HTTP connections; call `https` to accept HTTPS
/// connections instead.
pub struct AcceptorBuilder<State> {
    state: State,
    listener: TcpListener,
}

impl<State> AcceptorBuilder<State> {
    pub closed spec fn spec_listener(&self) -> TcpListener {
        self.listener
    }
}

impl AcceptorBuilder<Http> {
    /// Creates a new builder, accepting HTTP.
    pub fn new(listener: TcpListener) -> (r: AcceptorBuilder<Http>)
        ensures
            r.spec_listener() == listener,
    {
        AcceptorBuilder { state: Http, listener }
    }

    /// Converts the builder into accepting HTTPS with the provided `TlsAcceptor`,
    /// with the default handshake timeout of ten seconds.
    pub fn https(self, tls_acceptor: TlsAcceptor) -> (r: AcceptorBuilder<Https>)
        ensures
            r.spec_listener() == self.spec_listener(),
            r.spec_tls_acceptor() == tls_acceptor,
            r.handshake_timeout() == default_timeout_ms(),
    {
        AcceptorBuilder {
            state: Https { tls_acceptor, timeout_ms: default_handshake_timeout_ms() },
            listener: self.listener,
        }
    }

    /// Builds an `HttpOrHttpsAcceptor` that accepts HTTP connections.
    pub fn build(self) -> (r: HttpOrHttpsAcceptor)
        ensures
            r.spec_listener() == self.spec_listener(),
            r.spec_tls() == None::<TlsAcceptor>,
            r.spec_mode() == StreamKind::Plain,
            r.spec_handshake_timeout() == default_timeout_ms(),
    {
        HttpOrHttpsAcceptor::new(self.listener)
    }
}

impl AcceptorBuilder<Https> {
    pub closed spec fn handshake_timeout(&self) -> u64 {
        self.state.timeout_ms
    }

    pub closed spec fn spec_tls_acceptor(&self) -> TlsAcceptor {
        self.state.tls_acceptor
    }

    /// Sets the longest time, in milliseconds, that a handshake may take before
    /// it is aborted. Zero does not disable the timeout: every connection is
    /// then dropped at once.
    pub fn timeout(self, timeout_ms: u64) -> (r: AcceptorBuilder<Https>)
        ensures
            r.spec_listener() == self.spec_listener(),
            r.spec_tls_acceptor() == self.spec_tls_acceptor(),
            r.handshake_timeout() == timeout_ms,
    {
        AcceptorBuilder { state: Https { tls_acceptor: self.state.tls_acceptor, timeout_ms }, listener: self.listener }
    }

    /// Builds an `HttpOrHttpsAcceptor` that accepts HTTPS connections.
    pub fn build(self) -> (r: HttpOrHttpsAcceptor)
        ensures
            r.spec_listener() == self.spec_listener(),
            r.spec_tls() == Some(self.spec_tls_acceptor()),
            r.spec_mode() == StreamKind::Secure,
            r.spec_handshake_timeout() == self.handshake_timeout(),
    {
        HttpOrHttpsAcceptor::secure(self.listener, self.state.tls_acceptor, self.state.timeout_ms)
    }
}

} // verus!
