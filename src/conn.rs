use vstd::prelude::*;
use crate::peer::PeerAddr;
use crate::stream::{HttpOrHttpsStream, StreamKind};

verus! {

/// The transport of a connection to a client.
pub enum ConnKind {
    Http(tokio::net::TcpStream),
    Https(tokio_rustls::server::TlsStream<tokio::net::TcpStream>),
}

/// The stream connecting to a client over HTTP or HTTPS, with the client's address.
pub struct HttpOrHttpsConnection {
    pub(crate) remote_addr: PeerAddr,
    pub(crate) kind: ConnKind,
}

impl HttpOrHttpsConnection {
    pub closed spec fn spec_remote_addr(&self) -> PeerAddr {
        self.remote_addr
    }

    pub closed spec fn spec_kind(&self) -> StreamKind {
        match self.kind {
            ConnKind::Http(_) => StreamKind::Plain,
            ConnKind::Https(_) => StreamKind::Secure,
        }
    }

    /// A connection to the client at `remote_addr`.
    pub fn new(remote_addr: PeerAddr, kind: ConnKind) -> (r: HttpOrHttpsConnection)
        ensures
            r.spec_remote_addr() == remote_addr,
            r.spec_kind() == (match kind {
                ConnKind::Http(_) => StreamKind::Plain,
                ConnKind::Https(_) => StreamKind::Secure,
            }),
    {
        HttpOrHttpsConnection { remote_addr, kind }
    }

    /// Get the remote address of the connected client.
    pub fn remote_addr(&self) -> (r: PeerAddr)
        ensures
            r == self.spec_remote_addr(),
    {
        self.remote_addr
    }

    /// Whether the connection is plain or secure.
    pub fn kind(&self) -> (r: StreamKind)
        ensures
            r == self.spec_kind(),
    {
        match self.kind {
            ConnKind::Http(_) => StreamKind::Plain,
            ConnKind::Https(_) => StreamKind::Secure,
        }
    }

    /// The client's address and the connection as a stream of the same kind.
    pub fn into_stream(self) -> (r: (PeerAddr, HttpOrHttpsStream))
        ensures
            r.0 == self.spec_remote_addr(),
            r.1.spec_kind() == self.spec_kind(),
    {
        let stream = match self.kind {
            ConnKind::Http(tcp) => HttpOrHttpsStream::Http(tcp),
            ConnKind::Https(tls) => HttpOrHttpsStream::Https(tls),
        };
        (self.remote_addr, stream)
    }

    /// The client's address and the transport, taken apart.
    pub fn into_parts(self) -> (r: (PeerAddr, ConnKind))
        ensures
            r.0 == self.spec_remote_addr(),
            (match r.1 {
                ConnKind::Http(_) => StreamKind::Plain,
                ConnKind::Https(_) => StreamKind::Secure,
            }) == self.spec_kind(),
    {
        (self.remote_addr, self.kind)
    }
}

} // verus!
