use vstd::prelude::*;
use tokio::net::TcpStream;
use tokio_rustls::server::TlsStream;

verus! {

/// Which transport a stream runs over.
#[derive(Clone, Copy, Debug, PartialEq, Eq, Structural)]
pub enum StreamKind {
    /// A raw TCP connection.
    Plain,
    /// A TLS session over a TCP connection.
    Secure,
}

/// A client connection, plain or secure; reads and writes dispatch on the variant,
/// which never changes once the stream exists.
pub enum HttpOrHttpsStream {
    Http(TcpStream),
    Https(TlsStream<TcpStream>),
}

impl HttpOrHttpsStream {
    pub open spec fn spec_kind(&self) -> StreamKind {
        match self {
            HttpOrHttpsStream::Http(_) => StreamKind::Plain,
            HttpOrHttpsStream::Https(_) => StreamKind::Secure,
        }
    }

    pub fn kind(&self) -> (r: StreamKind)
        ensures
            r == self.spec_kind(),
    {
        match self {
            HttpOrHttpsStream::Http(_) => StreamKind::Plain,
            HttpOrHttpsStream::Https(_) => StreamKind::Secure,
        }
    }
}

/// What a shutdown request on a stream should do.
#[derive(Clone, Copy, Debug, PartialEq, Eq, Structural)]
pub enum ShutdownStep {
    /// Pass the shutdown on to the transport.
    Forward,
    /// The stream was already shut down: do nothing and report success.
    AlreadyShutDown,
}

/// Tracks whether a stream has been shut down, so that shutting it down again
/// is a no-op rather than a second close of the transport.
///
/// A request is passed on until the transport reports that its shutdown
/// completed; from then on every request is a no-op.
#[derive(Clone, Copy, Debug, PartialEq, Eq, Structural)]
pub struct ShutdownState {
    pub shut_down: bool,
}

/// The step for a shutdown request in state `s`.
pub open spec fn shutdown_step(s: ShutdownState) -> ShutdownStep {
    if s.shut_down {
        ShutdownStep::AlreadyShutDown
    } else {
        ShutdownStep::Forward
    }
}

/// The state after the transport answered a forwarded request; `completed`
/// says whether its shutdown finished.
pub open spec fn after_shutdown(s: ShutdownState, completed: bool) -> ShutdownState {
    ShutdownState { shut_down: s.shut_down || completed }
}

impl ShutdownState {
    /// A stream that is open.
    pub fn new() -> (r: ShutdownState)
        ensures
            !r.shut_down,
    {
        ShutdownState { shut_down: false }
    }

    /// Whether to pass a shutdown request on to the transport.
    pub fn request_shutdown(&self) -> (r: ShutdownStep)
        ensures
            r == shutdown_step(*self),
    {
        if self.shut_down {
            ShutdownStep::AlreadyShutDown
        } else {
            ShutdownStep::Forward
        }
    }

    /// Records what the transport answered to a forwarded shutdown.
    pub fn record_shutdown(&mut self, completed: bool)
        ensures
            *final(self) == after_shutdown(*old(self), completed),
    {
        if completed {
            self.shut_down = true;
        }
    }
}

/// Shutting a stream down is idempotent: once the transport has completed one
/// shutdown, every later request is a no-op, and whatever follows leaves the
/// stream shut down.
pub proof fn lemma_shutdown_idempotent(s: ShutdownState, later_result: bool)
    ensures
        shutdown_step(after_shutdown(s, true)) == ShutdownStep::AlreadyShutDown,
        after_shutdown(after_shutdown(s, true), later_result) == after_shutdown(s, true),
{
}

} // verus!
