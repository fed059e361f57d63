//! An HTTP client and server toolkit whose decisions are proved.
//!
//! The crate holds the parts of an HTTP stack that decide things: which
//! connection a pool hands out, how a connection attempt moves from one stage to
//! the next, which address is tried first, what a registry answers. Sockets,
//! timers and tasks belong to the programs that use it.

pub mod body;
pub mod bridge;
pub mod client;
pub mod counter;
pub mod info;
pub mod io;
pub mod net;
pub mod patron;
pub mod pidfile;
pub mod platter;
pub mod poll;
pub mod roomservice;
pub mod text;
pub mod time;
pub mod uri;
