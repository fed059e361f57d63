//! Transports reach a remote server and move bytes back and forth.

pub mod duplex;
pub mod mock;
pub mod stream;
pub mod tcp;
pub mod tls;
pub mod unix;
