//! Services that are called through a shared reference.

use vstd::prelude::*;

verus! {

/// A service that each request gets a clone of.
#[derive(Debug)]
pub struct TowerHyperService<S> {
    service: S,
}

impl<S> TowerHyperService<S> {
    /// The service.
    pub closed spec fn spec_service(self) -> S {
        self.service
    }

    /// Create a new `TowerHyperService` around a service.
    pub fn new(inner: S) -> (service: Self)
        ensures
            service.spec_service() == inner,
    {
        TowerHyperService { service: inner }
    }

    /// The service for a request, and the request: once the service is ready it is called
    /// with the request, and then dropped.
    pub fn call<Q>(&self, request: Q) -> (future: TowerHyperFuture<S, Q>) where S: Clone
        ensures
            cloned(self.spec_service(), future.service),
            future.request == request,
    {
        TowerHyperFuture { service: self.service.clone(), request }
    }
}

impl<S: Clone> Clone for TowerHyperService<S> {
    fn clone(&self) -> (copy: Self)
        ensures
            cloned(self.spec_service(), copy.spec_service()),
    {
        TowerHyperService { service: self.service.clone() }
    }
}

/// A request and the service that it is for.
#[derive(Debug)]
pub struct TowerHyperFuture<S, Q> {
    /// The service.
    pub service: S,
    /// The request.
    pub request: Q,
}

/// Each request gets a clone of the service, and is handed to it as it is.
pub proof fn law_request_gets_a_clone_of_the_service<S: Clone, Q>(
    service: S,
    wrapped: TowerHyperService<S>,
    request: Q,
    future: TowerHyperFuture<S, Q>,
)
    requires
        call_ensures(TowerHyperService::<S>::new, (service,), wrapped),
        call_ensures(TowerHyperService::<S>::call::<Q>, (&wrapped, request), future),
    ensures
        cloned(service, future.service),
        future.request == request,
{
}

} // verus!
