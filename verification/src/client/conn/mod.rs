//! Client connection types.
//!
//! A client connection is made of a transport, a protocol, and a connection. The
//! transport reaches a remote server and moves bytes. The protocol turns requests
//! and responses into bytes and back. The connection is what accepts requests.

pub mod connection;
pub mod connector;
pub mod dns;
pub mod protocol;
pub mod stream;
pub mod tcp;
pub mod tls;
pub mod transport;
