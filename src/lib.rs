//! An acceptor for a hyper server that serves either HTTP or HTTPS on one
//! listener, chosen when it is made.
//!
//! HTTP and HTTPS cannot be accepted at the same time; to offer both, make two
//! acceptors on two listeners. In HTTPS mode the handshakes run concurrently,
//! each bounded by its own deadline, and never hold up accepting new clients.

pub mod accept;
pub mod builder;
pub mod conn;
pub mod handshake;
pub mod outside;
pub mod peer;
pub mod rustls_helpers;
pub mod stream;

pub use accept::{AcceptorError, HttpOrHttpsAcceptor};
