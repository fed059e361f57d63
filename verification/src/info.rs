//! What is known of a connection.

use vstd::prelude::*;

verus! {

/// The two ends of a connection.
#[derive(Debug, PartialEq, Eq)]
pub struct ConnectionInfo<A> {
    /// The address on this side.
    pub local_addr: A,
    /// The address on the other side.
    pub remote_addr: A,
}

impl<A> ConnectionInfo<A> {
    /// A connection between two addresses.
    pub fn new(local_addr: A, remote_addr: A) -> (info: Self)
        ensures
            info.local_addr == local_addr,
            info.remote_addr == remote_addr,
    {
        ConnectionInfo { local_addr, remote_addr }
    }

    /// The address on this side.
    pub fn local_addr(&self) -> (addr: &A)
        ensures
            addr == self.local_addr,
    {
        &self.local_addr
    }

    /// The address on the other side.
    pub fn remote_addr(&self) -> (addr: &A)
        ensures
            addr == self.remote_addr,
    {
        &self.remote_addr
    }

    /// Whether `copy` is a copy of `original`, address by address.
    pub open spec fn copied(original: Self, copy: Self) -> bool where A: Clone {
        cloned(original.local_addr, copy.local_addr) && cloned(
            original.remote_addr,
            copy.remote_addr,
        )
    }
}

impl<A: Clone> Clone for ConnectionInfo<A> {
    fn clone(&self) -> (copy: Self)
        ensures
            ConnectionInfo::copied(*self, copy),
    {
        ConnectionInfo {
            local_addr: self.local_addr.clone(),
            remote_addr: self.remote_addr.clone(),
        }
    }
}

/// A stream that knows its two ends.
pub trait HasConnectionInfo {
    /// What addresses look like.
    type Addr;

    /// The two ends of the stream.
    spec fn ends(&self) -> ConnectionInfo<Self::Addr>;

    /// The two ends of the stream.
    fn info(&self) -> (info: ConnectionInfo<Self::Addr>)
        ensures
            info == self.ends(),
    ;
}

/// What was settled in a TLS handshake.
#[derive(Debug)]
pub struct TlsConnectionInfo {
    /// The name of the server, where one was given.
    pub server_name: Option<String>,
    /// The protocol that both sides agreed on, where they did.
    pub alpn: Option<String>,
}

impl TlsConnectionInfo {
    /// What is known of a handshake with nothing settled.
    pub fn new() -> (info: Self)
        ensures
            info.server_name is None,
            info.alpn is None,
    {
        TlsConnectionInfo { server_name: None, alpn: None }
    }

    /// The protocol that both sides agreed on.
    pub open spec fn agreed(self) -> Option<Seq<char>> {
        match self.alpn {
            Some(name) => Some(name@),
            None => None,
        }
    }
}

/// A connection tells its two ends apart: each address is the one it was made with, on the
/// side it was made with, and a copy tells the same.
pub proof fn law_ends_are_told_apart<A: Clone>(
    local: A,
    remote: A,
    info: ConnectionInfo<A>,
    found_local: &A,
    found_remote: &A,
    copy: ConnectionInfo<A>,
)
    requires
        call_ensures(ConnectionInfo::<A>::new, (local, remote), info),
        call_ensures(ConnectionInfo::<A>::local_addr, (&info,), found_local),
        call_ensures(ConnectionInfo::<A>::remote_addr, (&info,), found_remote),
        call_ensures(ConnectionInfo::<A>::clone, (&info,), copy),
    ensures
        *found_local == local,
        *found_remote == remote,
        cloned(local, copy.local_addr),
        cloned(remote, copy.remote_addr),
{
}

} // verus!
