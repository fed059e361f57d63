//! Transport over an in-memory stream.

use vstd::prelude::*;

verus! {

/// Transport via duplex stream, made by a client `D`.
#[derive(Debug)]
pub struct DuplexTransport<D> {
    max_buf_size: usize,
    client: D,
}

impl<D> DuplexTransport<D> {
    /// The size of the buffer of a stream, and what makes streams.
    pub closed spec fn parts(self) -> (usize, D) {
        (self.max_buf_size, self.client)
    }

    /// Create a new `DuplexTransport`
    pub fn new(max_buf_size: usize, client: D) -> (transport: Self)
        ensures
            transport.parts() == (max_buf_size, client),
    {
        DuplexTransport { max_buf_size, client }
    }

    /// What is to make the stream for a request, and the size of its buffer.
    pub fn call(&self) -> (request: (D, usize)) where D: Clone
        ensures
            cloned(self.parts().1, request.0),
            request.1 == self.parts().0,
    {
        (self.client.clone(), self.max_buf_size)
    }
}

impl<D: Clone> Clone for DuplexTransport<D> {
    fn clone(&self) -> (copy: Self)
        ensures
            copy.parts().0 == self.parts().0,
            cloned(self.parts().1, copy.parts().1),
    {
        DuplexTransport { max_buf_size: self.max_buf_size, client: self.client.clone() }
    }
}

/// A stream is made by a clone of the client that the transport was given, with a buffer of
/// the size that it was given; a copy of the transport asks for the same.
pub proof fn law_streams_have_the_size_that_was_set<D: Clone>(
    size: usize,
    client: D,
    transport: DuplexTransport<D>,
    request: (D, usize),
    copy: DuplexTransport<D>,
    again: (D, usize),
)
    requires
        call_ensures(DuplexTransport::<D>::new, (size, client), transport),
        call_ensures(DuplexTransport::<D>::call, (&transport,), request),
        call_ensures(DuplexTransport::<D>::clone, (&transport,), copy),
        call_ensures(DuplexTransport::<D>::call, (&copy,), again),
    ensures
        cloned(client, request.0),
        request.1 == size,
        again.1 == size,
{
}

} // verus!
