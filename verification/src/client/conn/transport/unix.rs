//! Unix Domain Socket transport implementation for client connections.

use vstd::prelude::*;

verus! {

/// Why a Unix socket could not be connected to.
#[derive(Debug, Clone, Copy, PartialEq, Eq, Structural)]
pub enum UnixConnectionError {
    /// The request does not say where to connect to.
    NoAddress,
}

/// Transport which looks up the target unix address in the request extensions.
#[derive(Debug)]
pub struct UnixExtensionTransport<T> {
    transport: T,
}

impl<T> UnixExtensionTransport<T> {
    /// The transport inside.
    pub closed spec fn inner(self) -> T {
        self.transport
    }

    /// Create a new UnixExtension transport from a unix transport.
    pub fn new(transport: T) -> (wrapped: Self)
        ensures
            wrapped.inner() == transport,
    {
        UnixExtensionTransport { transport }
    }

    /// The transport inside.
    pub fn transport_mut(&mut self) -> (transport: &mut T)
        ensures
            *transport == old(self).inner(),
            final(self).inner() == *final(transport),
    {
        &mut self.transport
    }

    /// Where to connect to for a request, and with what; `address` is what the request
    /// says. What connects is the transport that has been polled for readiness; a clone
    /// of it is left, whether or not there is an address.
    pub fn call<A>(&mut self, address: Option<A>) -> (target: Result<
        (T, A),
        UnixConnectionError,
    >) where T: Clone
        ensures
            cloned(old(self).inner(), final(self).inner()),
            match address {
                Some(address) => target == Ok::<(T, A), UnixConnectionError>(
                    (old(self).inner(), address),
                ),
                None => target == Err::<(T, A), UnixConnectionError>(
                    UnixConnectionError::NoAddress,
                ),
            },
    {
        let mut transport = self.transport.clone();
        std::mem::swap(&mut transport, &mut self.transport);
        match address {
            Some(address) => Ok((transport, address)),
            None => Err(UnixConnectionError::NoAddress),
        }
    }
}

impl<T> From<T> for UnixExtensionTransport<T> {
    fn from(transport: T) -> (wrapped: Self)
        ensures
            wrapped.inner() == transport,
    {
        UnixExtensionTransport { transport }
    }
}

impl<T> vstd::std_specs::convert::FromSpecImpl<T> for UnixExtensionTransport<T> {
    open spec fn obeys_from_spec() -> bool {
        true
    }

    closed spec fn from_spec(transport: T) -> Self {
        UnixExtensionTransport { transport }
    }
}

impl<T: Clone> Clone for UnixExtensionTransport<T> {
    fn clone(&self) -> (copy: Self)
        ensures
            cloned(self.inner(), copy.inner()),
    {
        UnixExtensionTransport { transport: self.transport.clone() }
    }
}

/// A request goes to the address that it says, over the transport that was made ready; one
/// that says none is refused. Either way a clone of the transport takes its place.
pub proof fn law_request_says_where_to_connect<T: Clone, A>(
    transport: T,
    wrapped: UnixExtensionTransport<T>,
    address: Option<A>,
    target: Result<(T, A), UnixConnectionError>,
    after: UnixExtensionTransport<T>,
    left: T,
)
    requires
        call_ensures(UnixExtensionTransport::<T>::new, (transport,), wrapped),
        exists|m: &mut UnixExtensionTransport<T>|
            *m == wrapped && *final(m) == after && #[trigger] call_ensures(
                UnixExtensionTransport::<T>::call::<A>,
                (m, address),
                target,
            ),
        exists|m: &mut UnixExtensionTransport<T>, place: &mut T|
            *m == after && *place == left && #[trigger] call_ensures(
                UnixExtensionTransport::<T>::transport_mut,
                (m,),
                place,
            ),
    ensures
        address is Some ==> target == Ok::<(T, A), UnixConnectionError>((transport, address->0)),
        address is None ==> target == Err::<(T, A), UnixConnectionError>(
            UnixConnectionError::NoAddress,
        ),
        cloned(transport, left),
{
}

} // verus!
