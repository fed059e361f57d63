//! Services whose bodies are changed on the way in and on the way out.
//!
//! A service here is any value: who calls it hands over a request whose body has
//! been changed as these types say, and changes the body of the response in turn.

use vstd::prelude::*;
use vstd::std_specs::convert::*;

use crate::body::Body;
use crate::poll::Poll;
use bytes::Bytes;
use http_body_util::combinators::UnsyncBoxBody;

verus! {

/// A request or a response: its body, and everything else.
#[derive(Debug)]
pub struct Message<P, B> {
    /// The method, the target, the status, the headers.
    pub parts: P,
    /// The body.
    pub body: B,
}

impl<P, B> Message<P, B> {
    /// Changes the body and leaves the rest.
    pub fn map<F, C>(self, f: F) -> (message: Message<P, C>) where F: FnOnce(B) -> C
        requires
            f.requires((self.body,)),
        ensures
            message.parts == self.parts,
            f.ensures((self.body,), message.body),
    {
        let Message { parts, body } = self;
        Message { parts, body: f(body) }
    }

    /// Converts the body and leaves the rest.
    pub fn convert<C>(self) -> (message: Message<P, C>) where C: From<B>
        ensures
            message.parts == self.parts,
            C::obeys_from_spec() ==> message.body == C::from_spec(self.body),
    {
        let Message { parts, body } = self;
        Message { parts, body: C::from(body) }
    }
}

/// What becomes of an answer whose body is converted: errors pass, and an answer
/// that is not there yet is waited for.
pub open spec fn converts<P, BIn, BOut: From<BIn>, E>(
    polled: Poll<Result<Message<P, BIn>, E>>,
    answer: Poll<Result<Message<P, BOut>, E>>,
) -> bool {
    match polled {
        Poll::Pending => answer is Pending,
        Poll::Ready(Err(error)) => answer == Poll::<Result<Message<P, BOut>, E>>::Ready(Err(error)),
        Poll::Ready(Ok(message)) => {
            &&& answer matches Poll::Ready(Ok(changed))
            &&& changed.parts == message.parts
            &&& BOut::obeys_from_spec() ==> changed.body == BOut::from_spec(message.body)
        },
    }
}

/// A service whose responses get a [`Body`].
#[derive(Debug)]
pub struct WrapResponseIntoBody<S> {
    inner: S,
}

impl<S> WrapResponseIntoBody<S> {
    /// The service inside.
    pub closed spec fn spec_inner(self) -> S {
        self.inner
    }

    /// Wraps a service.
    pub fn new(inner: S) -> (wrapped: Self)
        ensures
            wrapped.spec_inner() == inner,
    {
        WrapResponseIntoBody { inner }
    }

    /// The service to call with the request as it is.
    pub fn inner_mut(&mut self) -> (inner: &mut S)
        ensures
            *inner == old(self).spec_inner(),
            final(self).spec_inner() == *final(inner),
    {
        &mut self.inner
    }

    /// The response of the service, with its boxed body as a [`Body`].
    pub fn respond<P, E, F>(
        &self,
        polled: Poll<Result<Message<P, UnsyncBoxBody<Bytes, E>>, F>>,
    ) -> (answer: Poll<Result<Message<P, Body<E>>, F>>)
        ensures
            match polled {
                Poll::Pending => answer is Pending,
                Poll::Ready(Err(error)) => answer == Poll::<
                    Result<Message<P, Body<E>>, F>,
                >::Ready(Err(error)),
                Poll::Ready(Ok(message)) => {
                    &&& answer matches Poll::Ready(Ok(changed))
                    &&& changed.parts == message.parts
                    &&& changed.body.boxed_stream() == Some(message.body)
                },
            },
    {
        match polled {
            Poll::Pending => Poll::Pending,
            Poll::Ready(Err(error)) => Poll::Ready(Err(error)),
            Poll::Ready(Ok(message)) => {
                let Message { parts, body } = message;
                Poll::Ready(Ok(Message { parts, body: Body::from_boxed(body) }))
            },
        }
    }
}

impl<S: Clone> Clone for WrapResponseIntoBody<S> {
    fn clone(&self) -> (copy: Self)
        ensures
            cloned(self.spec_inner(), copy.spec_inner()),
    {
        WrapResponseIntoBody { inner: self.inner.clone() }
    }
}

/// A service that takes requests with one body and is called with another.
#[derive(Debug)]
pub struct WrapRequestFromBody<S> {
    service: S,
}

impl<S> WrapRequestFromBody<S> {
    /// The service inside.
    pub closed spec fn spec_service(self) -> S {
        self.service
    }

    /// Wraps a service.
    pub fn new(service: S) -> (wrapped: Self)
        ensures
            wrapped.spec_service() == service,
    {
        WrapRequestFromBody { service }
    }

    /// The service inside.
    pub fn service(&self) -> (service: &S)
        ensures
            *service == self.spec_service(),
    {
        &self.service
    }

    /// The service inside.
    pub fn service_mut(&mut self) -> (service: &mut S)
        ensures
            *service == old(self).spec_service(),
            final(self).spec_service() == *final(service),
    {
        &mut self.service
    }

    /// The service inside.
    pub fn into_service(self) -> (service: S)
        ensures
            service == self.spec_service(),
    {
        self.service
    }

    /// The request that the service inside is called with.
    pub fn request<P, E, BIn>(&self, request: Message<P, Body<E>>) -> (inner: Message<
        P,
        BIn,
    >) where BIn: From<Body<E>>
        ensures
            inner.parts == request.parts,
            BIn::obeys_from_spec() ==> inner.body == BIn::from_spec(request.body),
    {
        request.convert()
    }
}

impl<S: Clone> Clone for WrapRequestFromBody<S> {
    fn clone(&self) -> (copy: Self)
        ensures
            cloned(self.spec_service(), copy.spec_service()),
    {
        WrapRequestFromBody { service: self.service.clone() }
    }
}

/// A service that is called with the boxed form of the body it takes, and whose
/// boxed responses get the outer body again.
#[derive(Debug)]
pub struct WrapAsBodyService<S> {
    service: S,
}

impl<S> WrapAsBodyService<S> {
    /// The service inside.
    pub closed spec fn spec_service(self) -> S {
        self.service
    }

    /// Wraps a service.
    pub fn new(service: S) -> (wrapped: Self)
        ensures
            wrapped.spec_service() == service,
    {
        WrapAsBodyService { service }
    }

    /// The service inside.
    pub fn service(&self) -> (service: &S)
        ensures
            *service == self.spec_service(),
    {
        &self.service
    }

    /// The service inside.
    pub fn service_mut(&mut self) -> (service: &mut S)
        ensures
            *service == old(self).spec_service(),
            final(self).spec_service() == *final(service),
    {
        &mut self.service
    }

    /// The service inside.
    pub fn into_service(self) -> (service: S)
        ensures
            service == self.spec_service(),
    {
        self.service
    }

    /// The request that the service inside is called with.
    pub fn request<P, E, BIn>(
        &self,
        request: Message<P, UnsyncBoxBody<Bytes, E>>,
    ) -> (inner: Message<P, BIn>) where BIn: From<UnsyncBoxBody<Bytes, E>>
        ensures
            inner.parts == request.parts,
            BIn::obeys_from_spec() ==> inner.body == BIn::from_spec(request.body),
    {
        request.convert()
    }

    /// The response, with the outer body.
    pub fn respond<P, E, F, B>(
        &self,
        polled: Poll<Result<Message<P, UnsyncBoxBody<Bytes, E>>, F>>,
    ) -> (answer: Poll<Result<Message<P, B>, F>>) where B: From<UnsyncBoxBody<Bytes, E>>
        ensures
            converts(polled, answer),
    {
        convert_response(polled)
    }
}

impl<S: Clone> Clone for WrapAsBodyService<S> {
    fn clone(&self) -> (copy: Self)
        ensures
            cloned(self.spec_service(), copy.spec_service()),
    {
        WrapAsBodyService { service: self.service.clone() }
    }
}

/// A service that stands behind another body: requests come boxed, and so do
/// responses.
#[derive(Debug)]
pub struct ProvideAsBodyService<S> {
    /// The service inside.
    pub service: S,
}

impl<S> ProvideAsBodyService<S> {
    /// The request that the service inside is called with.
    pub fn request<P, E, BRequest>(
        &self,
        request: Message<P, UnsyncBoxBody<Bytes, E>>,
    ) -> (inner: Message<P, BRequest>) where BRequest: From<UnsyncBoxBody<Bytes, E>>
        ensures
            inner.parts == request.parts,
            BRequest::obeys_from_spec() ==> inner.body == BRequest::from_spec(request.body),
    {
        request.convert()
    }

    /// The response, with the outer body.
    pub fn respond<P, E, F, BOuter>(
        &self,
        polled: Poll<Result<Message<P, UnsyncBoxBody<Bytes, E>>, F>>,
    ) -> (answer: Poll<Result<Message<P, BOuter>, F>>) where BOuter: From<UnsyncBoxBody<Bytes, E>>
        ensures
            converts(polled, answer),
    {
        convert_response(polled)
    }
}

impl<S: Clone> Clone for ProvideAsBodyService<S> {
    fn clone(&self) -> (copy: Self)
        ensures
            cloned(self.service, copy.service),
    {
        ProvideAsBodyService { service: self.service.clone() }
    }
}

fn convert_response<P, BIn, BOut: From<BIn>, E>(
    polled: Poll<Result<Message<P, BIn>, E>>,
) -> (answer: Poll<Result<Message<P, BOut>, E>>)
    ensures
        converts(polled, answer),
{
    match polled {
        Poll::Pending => Poll::Pending,
        Poll::Ready(Err(error)) => Poll::Ready(Err(error)),
        Poll::Ready(Ok(message)) => Poll::Ready(Ok(message.convert())),
    }
}

/// A service whose bodies are changed by a pair of functions.
#[derive(Debug)]
pub struct ProvideViaMapBody<S, FReq, FRes> {
    service: S,
    map_request: FReq,
    map_response: FRes,
}

impl<S, FReq, FRes> ProvideViaMapBody<S, FReq, FRes> {
    /// The service inside.
    pub closed spec fn spec_service(self) -> S {
        self.service
    }

    /// The function that changes the bodies of requests.
    pub closed spec fn spec_map_request(self) -> FReq {
        self.map_request
    }

    /// The function that changes the bodies of responses.
    pub closed spec fn spec_map_response(self) -> FRes {
        self.map_response
    }

    /// Wraps a service.
    pub fn new(service: S, map_request: FReq, map_response: FRes) -> (wrapped: Self)
        ensures
            wrapped.spec_service() == service,
            wrapped.spec_map_request() == map_request,
            wrapped.spec_map_response() == map_response,
    {
        ProvideViaMapBody { service, map_request, map_response }
    }

    /// The service to call with the changed request.
    pub fn service_mut(&mut self) -> (service: &mut S)
        ensures
            *service == old(self).spec_service(),
            final(self).spec_service() == *final(service),
            final(self).spec_map_request() == old(self).spec_map_request(),
            final(self).spec_map_response() == old(self).spec_map_response(),
    {
        &mut self.service
    }

    /// The request that the service inside is called with.
    pub fn request<P, BOuter, BInner>(&self, request: Message<P, BOuter>) -> (inner: Message<
        P,
        BInner,
    >) where FReq: Fn(BOuter) -> BInner
        requires
            self.spec_map_request().requires((request.body,)),
        ensures
            inner.parts == request.parts,
            self.spec_map_request().ensures((request.body,), inner.body),
    {
        let Message { parts, body } = request;
        Message { parts, body: (self.map_request)(body) }
    }

    /// What waits for the response of the service.
    pub fn response<Fut>(&self, future: Fut) -> (response: MapResponseBodyFuture<
        Fut,
        FRes,
    >) where FRes: Clone
        ensures
            response.spec_future() == future,
            cloned(self.spec_map_response(), response.spec_map_response()),
    {
        MapResponseBodyFuture::new(future, self.map_response.clone())
    }
}

impl<S: Clone, FReq: Clone, FRes: Clone> Clone for ProvideViaMapBody<S, FReq, FRes> {
    fn clone(&self) -> (copy: Self)
        ensures
            cloned(self.spec_service(), copy.spec_service()),
            cloned(self.spec_map_request(), copy.spec_map_request()),
            cloned(self.spec_map_response(), copy.spec_map_response()),
    {
        ProvideViaMapBody {
            service: self.service.clone(),
            map_request: self.map_request.clone(),
            map_response: self.map_response.clone(),
        }
    }
}

/// Waits for a response and changes its body.
#[derive(Debug)]
pub struct MapResponseBodyFuture<Fut, F> {
    future: Fut,
    map_response: F,
}

impl<Fut, F> MapResponseBodyFuture<Fut, F> {
    /// What is waited for.
    pub closed spec fn spec_future(self) -> Fut {
        self.future
    }

    /// The function that changes the body.
    pub closed spec fn spec_map_response(self) -> F {
        self.map_response
    }

    /// Waits for a response.
    pub fn new(future: Fut, map_response: F) -> (response: Self)
        ensures
            response.spec_future() == future,
            response.spec_map_response() == map_response,
    {
        MapResponseBodyFuture { future, map_response }
    }

    /// What to poll.
    pub fn future_mut(&mut self) -> (future: &mut Fut)
        ensures
            *future == old(self).spec_future(),
            final(self).spec_future() == *final(future),
            final(self).spec_map_response() == old(self).spec_map_response(),
    {
        &mut self.future
    }

    /// The response, given what polling gave.
    pub fn poll<P, BIn, BOut, E>(&self, polled: Poll<Result<Message<P, BIn>, E>>) -> (answer: Poll<
        Result<Message<P, BOut>, E>,
    >) where F: Fn(BIn) -> BOut
        requires
            polled matches Poll::Ready(Ok(message)) ==> self.spec_map_response().requires(
                (message.body,),
            ),
        ensures
            match polled {
                Poll::Pending => answer is Pending,
                Poll::Ready(Err(error)) => answer == Poll::<Result<Message<P, BOut>, E>>::Ready(
                    Err(error),
                ),
                Poll::Ready(Ok(message)) => {
                    &&& answer matches Poll::Ready(Ok(changed))
                    &&& changed.parts == message.parts
                    &&& self.spec_map_response().ensures((message.body,), changed.body)
                },
            },
    {
        match polled {
            Poll::Pending => Poll::Pending,
            Poll::Ready(Err(error)) => Poll::Ready(Err(error)),
            Poll::Ready(Ok(message)) => {
                let Message { parts, body } = message;
                Poll::Ready(Ok(Message { parts, body: (self.map_response)(body) }))
            },
        }
    }
}

/// Changing a body leaves the rest of the message.
pub proof fn law_only_the_body_is_changed<P, B, F: FnOnce(B) -> C, C: From<B>>(
    message: Message<P, B>,
    f: F,
    mapped: Message<P, C>,
    converted: Message<P, C>,
)
    requires
        call_ensures(Message::<P, B>::map::<F, C>, (message, f), mapped),
        call_ensures(Message::<P, B>::convert::<C>, (message,), converted),
    ensures
        mapped.parts == message.parts,
        f.ensures((message.body,), mapped.body),
        converted.parts == message.parts,
        C::obeys_from_spec() ==> converted.body == C::from_spec(message.body),
{
}

/// A response whose body is wrapped is waited for as the response is, fails as it does, and
/// comes with the rest as it was and a body that gives what the boxed one gives.
pub proof fn law_response_body_is_wrapped<S, P, E, F>(
    wrapped: WrapResponseIntoBody<S>,
    polled: Poll<Result<Message<P, UnsyncBoxBody<Bytes, E>>, F>>,
    answer: Poll<Result<Message<P, Body<E>>, F>>,
)
    requires
        call_ensures(WrapResponseIntoBody::<S>::respond::<P, E, F>, (&wrapped, polled), answer),
    ensures
        polled is Pending <==> answer is Pending,
        polled matches Poll::Ready(Err(error)) ==> answer == Poll::<
            Result<Message<P, Body<E>>, F>,
        >::Ready(Err(error)),
        polled matches Poll::Ready(Ok(message)) ==> {
            &&& answer matches Poll::Ready(Ok(changed))
            &&& changed.parts == message.parts
            &&& changed.body.boxed_stream() == Some(message.body)
        },
{
}

/// A service behind another body gets the request with its body converted and the rest as it
/// was, and answers with the response converted in the same way, or with its error.
pub proof fn law_bodies_are_converted_both_ways<S, P, E, F, B: From<UnsyncBoxBody<Bytes, E>>>(
    service: S,
    outer: WrapAsBodyService<S>,
    provided: ProvideAsBodyService<S>,
    request: Message<P, UnsyncBoxBody<Bytes, E>>,
    first: Message<P, B>,
    second: Message<P, B>,
    polled: Poll<Result<Message<P, UnsyncBoxBody<Bytes, E>>, F>>,
    third: Poll<Result<Message<P, B>, F>>,
    fourth: Poll<Result<Message<P, B>, F>>,
    found: &S,
    taken: S,
)
    requires
        B::obeys_from_spec(),
        call_ensures(WrapAsBodyService::<S>::new, (service,), outer),
        call_ensures(WrapAsBodyService::<S>::request::<P, E, B>, (&outer, request), first),
        call_ensures(ProvideAsBodyService::<S>::request::<P, E, B>, (&provided, request), second),
        call_ensures(WrapAsBodyService::<S>::respond::<P, E, F, B>, (&outer, polled), third),
        call_ensures(ProvideAsBodyService::<S>::respond::<P, E, F, B>, (&provided, polled), fourth),
        call_ensures(WrapAsBodyService::<S>::service, (&outer,), found),
        call_ensures(WrapAsBodyService::<S>::into_service, (outer,), taken),
    ensures
        first.parts == request.parts && first.body == B::from_spec(request.body),
        second == first,
        polled is Pending <==> third is Pending,
        polled matches Poll::Ready(Err(error)) ==> third == Poll::<
            Result<Message<P, B>, F>,
        >::Ready(Err(error)),
        polled matches Poll::Ready(Ok(message)) ==> {
            &&& third matches Poll::Ready(Ok(changed))
            &&& changed.parts == message.parts
            &&& changed.body == B::from_spec(message.body)
        },
        fourth == third,
        *found == service,
        taken == service,
{
}

/// A service that takes another body is called with the request converted and the rest as it
/// was, and is the service that was wrapped.
pub proof fn law_request_body_is_converted<S, P, E, B: From<Body<E>>>(
    service: S,
    wrapped: WrapRequestFromBody<S>,
    request: Message<P, Body<E>>,
    inner: Message<P, B>,
    found: &S,
    taken: S,
)
    requires
        B::obeys_from_spec(),
        call_ensures(WrapRequestFromBody::<S>::new, (service,), wrapped),
        call_ensures(WrapRequestFromBody::<S>::request::<P, E, B>, (&wrapped, request), inner),
        call_ensures(WrapRequestFromBody::<S>::service, (&wrapped,), found),
        call_ensures(WrapRequestFromBody::<S>::into_service, (wrapped,), taken),
    ensures
        inner.parts == request.parts,
        inner.body == B::from_spec(request.body),
        *found == service,
        taken == service,
{
}

/// Bodies that are changed by functions are changed by the ones that were given: that for
/// requests changes the request, and a clone of that for responses the response. The rest of
/// both stays, and an error or a wait passes.
pub proof fn law_functions_change_the_bodies<
    S,
    FReq: Fn(BOuter) -> BInner,
    FRes: Fn(BIn) -> BOut + Clone,
    P,
    BOuter,
    BInner,
    BIn,
    BOut,
    Fut,
    E,
>(
    service: S,
    map_request: FReq,
    map_response: FRes,
    wrapped: ProvideViaMapBody<S, FReq, FRes>,
    request: Message<P, BOuter>,
    inner: Message<P, BInner>,
    future: Fut,
    waiting: MapResponseBodyFuture<Fut, FRes>,
    polled: Poll<Result<Message<P, BIn>, E>>,
    answer: Poll<Result<Message<P, BOut>, E>>,
)
    requires
        call_ensures(
            ProvideViaMapBody::<S, FReq, FRes>::new,
            (service, map_request, map_response),
            wrapped,
        ),
        call_ensures(
            ProvideViaMapBody::<S, FReq, FRes>::request::<P, BOuter, BInner>,
            (&wrapped, request),
            inner,
        ),
        call_ensures(
            ProvideViaMapBody::<S, FReq, FRes>::response::<Fut>,
            (&wrapped, future),
            waiting,
        ),
        call_ensures(
            MapResponseBodyFuture::<Fut, FRes>::poll::<P, BIn, BOut, E>,
            (&waiting, polled),
            answer,
        ),
    ensures
        inner.parts == request.parts,
        map_request.ensures((request.body,), inner.body),
        waiting.spec_future() == future,
        polled is Pending <==> answer is Pending,
        polled matches Poll::Ready(Err(error)) ==> answer == Poll::<
            Result<Message<P, BOut>, E>,
        >::Ready(Err(error)),
        polled matches Poll::Ready(Ok(message)) ==> {
            &&& answer matches Poll::Ready(Ok(changed))
            &&& changed.parts == message.parts
            &&& exists|map: FRes| #[trigger]
                cloned(map_response, map) && map.ensures((message.body,), changed.body)
        },
{
    assert(cloned(map_response, waiting.spec_map_response()));
}

/// A wrapped service is the service that was wrapped, takes what is put in its place, and is
/// cloned with its wrapping.
pub proof fn law_wrapped_service_is_kept<S: Clone>(
    service: S,
    first: WrapRequestFromBody<S>,
    first_before: S,
    first_changed: WrapRequestFromBody<S>,
    first_left: S,
    first_copy: WrapRequestFromBody<S>,
    first_copied: S,
    second: WrapAsBodyService<S>,
    second_before: S,
    second_changed: WrapAsBodyService<S>,
    second_left: S,
    second_copy: WrapAsBodyService<S>,
    second_copied: S,
    other: S,
    third: WrapResponseIntoBody<S>,
    third_before: S,
    third_changed: WrapResponseIntoBody<S>,
    third_copy: WrapResponseIntoBody<S>,
    fourth: ProvideAsBodyService<S>,
    fourth_copy: ProvideAsBodyService<S>,
)
    requires
        call_ensures(WrapRequestFromBody::<S>::new, (service,), first),
        exists|m: &mut WrapRequestFromBody<S>, place: &mut S|
            *m == first && *final(m) == first_changed && *place == first_before && *final(place)
                == other && #[trigger] call_ensures(
                WrapRequestFromBody::<S>::service_mut,
                (m,),
                place,
            ),
        call_ensures(WrapRequestFromBody::<S>::into_service, (first_changed,), first_left),
        call_ensures(WrapRequestFromBody::<S>::clone, (&first,), first_copy),
        call_ensures(WrapRequestFromBody::<S>::into_service, (first_copy,), first_copied),
        call_ensures(WrapAsBodyService::<S>::new, (service,), second),
        exists|m: &mut WrapAsBodyService<S>, place: &mut S|
            *m == second && *final(m) == second_changed && *place == second_before && *final(place)
                == other && #[trigger] call_ensures(
                WrapAsBodyService::<S>::service_mut,
                (m,),
                place,
            ),
        call_ensures(WrapAsBodyService::<S>::into_service, (second_changed,), second_left),
        call_ensures(WrapAsBodyService::<S>::clone, (&second,), second_copy),
        call_ensures(WrapAsBodyService::<S>::into_service, (second_copy,), second_copied),
        call_ensures(WrapResponseIntoBody::<S>::new, (service,), third),
        exists|m: &mut WrapResponseIntoBody<S>, place: &mut S|
            *m == third && *final(m) == third_changed && *place == third_before && *final(place)
                == other && #[trigger] call_ensures(
                WrapResponseIntoBody::<S>::inner_mut,
                (m,),
                place,
            ),
        call_ensures(WrapResponseIntoBody::<S>::clone, (&third,), third_copy),
        call_ensures(ProvideAsBodyService::<S>::clone, (&fourth,), fourth_copy),
    ensures
        first_before == service && first_left == other && cloned(service, first_copied),
        second_before == service && second_left == other && cloned(service, second_copied),
        third_before == service && third_changed.spec_inner() == other && cloned(
            service,
            third_copy.spec_inner(),
        ),
        cloned(fourth.service, fourth_copy.service),
{
}

/// What changes bodies by functions keeps its service and its functions: the service can be
/// changed in place, alone, and a copy has clones of all three. What waits for a response can
/// be asked in place.
pub proof fn law_functions_are_kept<S: Clone, FReq: Clone, FRes: Clone, Fut>(
    service: S,
    map_request: FReq,
    map_response: FRes,
    wrapped: ProvideViaMapBody<S, FReq, FRes>,
    before: S,
    other: S,
    changed: ProvideViaMapBody<S, FReq, FRes>,
    copy: ProvideViaMapBody<S, FReq, FRes>,
    future: Fut,
    waiting: MapResponseBodyFuture<Fut, FRes>,
    old_future: Fut,
    new_future: Fut,
    asked: MapResponseBodyFuture<Fut, FRes>,
)
    requires
        call_ensures(
            ProvideViaMapBody::<S, FReq, FRes>::new,
            (service, map_request, map_response),
            wrapped,
        ),
        exists|m: &mut ProvideViaMapBody<S, FReq, FRes>, place: &mut S|
            *m == wrapped && *final(m) == changed && *place == before && *final(place) == other
                && #[trigger] call_ensures(
                ProvideViaMapBody::<S, FReq, FRes>::service_mut,
                (m,),
                place,
            ),
        call_ensures(ProvideViaMapBody::<S, FReq, FRes>::clone, (&wrapped,), copy),
        call_ensures(MapResponseBodyFuture::<Fut, FRes>::new, (future, map_response), waiting),
        exists|m: &mut MapResponseBodyFuture<Fut, FRes>, place: &mut Fut|
            *m == waiting && *final(m) == asked && *place == old_future && *final(place)
                == new_future && #[trigger] call_ensures(
                MapResponseBodyFuture::<Fut, FRes>::future_mut,
                (m,),
                place,
            ),
    ensures
        before == service,
        changed.spec_service() == other,
        changed.spec_map_request() == map_request && changed.spec_map_response() == map_response,
        cloned(service, copy.spec_service()) && cloned(map_request, copy.spec_map_request())
            && cloned(map_response, copy.spec_map_response()),
        old_future == future,
        asked.spec_future() == new_future,
        asked.spec_map_response() == map_response,
{
}

} // verus!
