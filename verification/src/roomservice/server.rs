//! Passing gRPC requests on to the services they name.

use vstd::prelude::*;

use crate::roomservice;
use crate::text;
use crate::uri::{self, Authority, AuthorityParts, Scheme, Uri, UriParts};

verus! {

/// The pieces of a text between the separators of unix paths.
pub open spec fn pieces(path: Seq<char>) -> Seq<Seq<char>>
    decreases path.len(),
{
    if path.len() == 0 {
        seq![Seq::empty()]
    } else {
        let before = pieces(path.drop_last());
        if path.last() == '/' {
            before.push(Seq::empty())
        } else {
            before.drop_last().push(before.last().push(path.last()))
        }
    }
}

/// The components of a unix path: its root, where it has one, and the pieces between the
/// separators, without those that are empty, and without those that are a dot, unless
/// the path begins with it.
pub open spec fn path_components(path: Seq<char>) -> Seq<Seq<char>> {
    let start = if path.len() > 0 && path[0] == '/' {
        seq![seq!['/']]
    } else if pieces(path)[0] == seq!['.'] {
        seq![seq!['.']]
    } else {
        Seq::empty()
    };
    start + pieces(path).filter(|piece: Seq<char>| piece.len() > 0 && piece != seq!['.'])
}

/// Calls `camino::Utf8Path::components` and takes the text of each. On unix, whose
/// sockets services have, repeated and trailing separators are ignored, and so are dots
/// but for one at the beginning; the root is a component of its own.
#[verifier::external_body]
fn components(path: &str) -> (parts: Vec<String>)
    ensures
        parts@.map_values(|part: String| part@) == path_components(path@),
{
    camino::Utf8Path::new(path).components().map(|part| part.as_str().to_owned()).collect()
}

/// The component of a path that names a service: the second, since the first of an
/// absolute path is its root.
pub fn find_service_name(uri: &Uri) -> (service: Option<String>)
    ensures
        match service {
            Some(service) => {
                &&& path_components(uri@.path).len() > 1
                &&& service@ == path_components(uri@.path)[1]
            },
            None => path_components(uri@.path).len() <= 1,
        },
{
    let parts = components(uri.path.as_str());
    second(&parts)
}

/// The second of several texts.
pub fn second(parts: &Vec<String>) -> (part: Option<String>)
    ensures
        match part {
            Some(part) => parts@.len() > 1 && part@ == parts@[1]@,
            None => parts@.len() <= 1,
        },
{
    if parts.len() > 1 {
        Some(parts[1].clone())
    } else {
        None
    }
}

/// Why a request was not passed on.
#[derive(Debug)]
pub enum RouterError<E> {
    /// The target names no service.
    InvalidUri,
    /// There is no service with this name.
    ServiceNotFound(String),
    /// The client failed.
    Client(E),
}

impl<E> RouterError<E> {
    /// The error as a text. `cause` is the text of the client's error.
    pub fn to_string(&self, cause: &str) -> (shown: String)
        ensures
            shown@ == match self {
                RouterError::InvalidUri => "invalid uri"@,
                RouterError::ServiceNotFound(name) => "service '"@ + name@ + "' not found"@,
                RouterError::Client(_) => "client: "@ + cause@,
            },
    {
        match self {
            RouterError::InvalidUri => "invalid uri".to_owned(),
            RouterError::ServiceNotFound(name) => {
                let start = text::join("service '", name.as_str());
                text::join(start.as_str(), "' not found")
            },
            RouterError::Client(_) => text::join("client: ", cause),
        }
    }
}

/// A router to multiplex GRPC services
#[derive(Debug, Clone, Copy, PartialEq, Eq, Structural)]
pub struct GrpcRouter;

impl GrpcRouter {
    /// Create a new GRPC Router.
    pub fn new() -> (router: Self)
        ensures
            router == GrpcRouter,
    {
        GrpcRouter
    }

    /// The service that a request is for.
    pub fn service<E>(&self, uri: &Uri) -> (service: Result<String, RouterError<E>>)
        ensures
            match service {
                Ok(service) => {
                    &&& path_components(uri@.path).len() > 1
                    &&& service@ == path_components(uri@.path)[1]
                },
                Err(error) => path_components(uri@.path).len() <= 1 && error is InvalidUri,
            },
    {
        match find_service_name(uri) {
            Some(service) => Ok(service),
            None => Err(RouterError::InvalidUri),
        }
    }

    /// The target of the request that is passed on: the path and the query stay, and
    /// the host becomes `name`, under which the service is registered.
    pub fn upstream<E>(&self, uri: Uri, service: String, name: Option<Authority>) -> (upstream:
        Result<Uri, RouterError<E>>)
        ensures
            match name {
                None => upstream == Err::<Uri, RouterError<E>>(
                    RouterError::ServiceNotFound(service),
                ),
                Some(name) => {
                    &&& upstream matches Ok(target)
                    &&& target@ == passed_on(uri@, name@)
                },
            },
    {
        match name {
            None => Err(RouterError::ServiceNotFound(service)),
            Some(name) => {
                let mut target = uri;
                target.scheme = Some(Scheme::new("svc".to_owned()));
                target.authority = Some(name);
                Ok(target)
            },
        }
    }

    /// The target of the request that is passed on, where `name` is the text under which
    /// the service is registered. `None` means that the text is no authority, which the
    /// name of a service has to be.
    pub fn upstream_by_name<E>(&self, uri: Uri, service: String, name: Option<&str>) -> (upstream:
        Option<Result<Uri, RouterError<E>>>)
        ensures
            match name {
                None => upstream == Some(
                    Err::<Uri, RouterError<E>>(RouterError::ServiceNotFound(service)),
                ),
                Some(name) => match uri::parsed_authority(name@) {
                    Ok(parts) => {
                        &&& upstream matches Some(Ok(target))
                        &&& target@ == passed_on(uri@, parts)
                    },
                    Err(_) => upstream is None,
                },
            },
    {
        match name {
            None => Some(self.upstream(uri, service, None)),
            Some(name) => match Authority::parse(name) {
                Ok(name) => Some(self.upstream(uri, service, Some(name))),
                Err(_) => None,
            },
        }
    }
}

/// The target of a request that is passed on.
pub open spec fn passed_on(target: UriParts, name: AuthorityParts) -> UriParts {
    UriParts { scheme: Some("svc"@), authority: Some(name), ..target }
}

/// A request that is passed on reaches the service under whose name it is: the
/// transport of a registry takes the name from the host.
pub proof fn law_upstream_reaches_the_service(target: UriParts, name: AuthorityParts)
    ensures
        roomservice::service_of(passed_on(target, name)) == Some(name.host),
{
}

proof fn lemma_pieces_of_one(text: Seq<char>)
    requires
        forall|i: int| 0 <= i < text.len() ==> text[i] != '/',
    ensures
        pieces(text) == seq![text],
    decreases text.len(),
{
    if text.len() > 0 {
        lemma_pieces_of_one(text.drop_last());
        assert(text.drop_last().push(text.last()) =~= text);
    } else {
        assert(text =~= Seq::empty());
    }
    assert(pieces(text) =~= seq![text]);
}

proof fn lemma_pieces_after_separator(first: Seq<char>, second: Seq<char>)
    ensures
        pieces(first + seq!['/'] + second) == pieces(first) + pieces(second),
    decreases second.len(),
{
    let whole = first + seq!['/'] + second;
    if second.len() == 0 {
        assert(whole.drop_last() =~= first);
    } else {
        lemma_pieces_after_separator(first, second.drop_last());
        assert(whole.drop_last() =~= first + seq!['/'] + second.drop_last());
        lemma_pieces_exist(second.drop_last());
    }
    assert(pieces(whole) =~= pieces(first) + pieces(second));
}

proof fn lemma_pieces_exist(path: Seq<char>)
    ensures
        pieces(path).len() > 0,
    decreases path.len(),
{
    if path.len() > 0 {
        lemma_pieces_exist(path.drop_last());
    }
}

/// The service of a request is what its path begins with: whatever stands between the
/// first separator and the next, unless that is nothing or a dot.
pub proof fn law_path_begins_with_the_service(name: Seq<char>, rest: Seq<char>)
    requires
        name.len() > 0,
        name != seq!['.'],
        forall|i: int| 0 <= i < name.len() ==> name[i] != '/',
    ensures
        path_components(seq!['/'] + name).len() == 2,
        path_components(seq!['/'] + name)[1] == name,
        path_components(seq!['/'] + name + seq!['/'] + rest).len() >= 2,
        path_components(seq!['/'] + name + seq!['/'] + rest)[1] == name,
{
    let counts = |piece: Seq<char>| piece.len() > 0 && piece != seq!['.'];
    let start = seq!['/'] + name;
    let path = start + seq!['/'] + rest;
    lemma_pieces_of_one(name);
    lemma_pieces_of_one(Seq::empty());
    lemma_pieces_after_separator(Seq::empty(), name);
    assert(Seq::<char>::empty() + seq!['/'] + name =~= start);
    assert(pieces(start) =~= seq![Seq::<char>::empty()] + seq![name]);
    lemma_pieces_after_separator(start, rest);

    reveal_with_fuel(Seq::filter, 2);
    let none = seq![Seq::<char>::empty()];
    let one = seq![name];
    assert(none.drop_last() =~= Seq::empty());
    assert(one.drop_last() =~= Seq::empty());
    assert(none.filter(counts) =~= Seq::empty());
    assert(one.filter(counts) =~= one);
    Seq::filter_distributes_over_add(none, one, counts);
    assert(pieces(start).filter(counts) =~= one);
    Seq::filter_distributes_over_add(pieces(start), pieces(rest), counts);
    assert(pieces(path).filter(counts) =~= one + pieces(rest).filter(counts));
}

/// A request is for the service whose name its path begins with, and one whose path names
/// nothing is refused.
pub proof fn law_path_names_the_service<E>(
    name: Seq<char>,
    rest: Seq<char>,
    uri: Uri,
    found: Option<String>,
    service: Result<String, RouterError<E>>,
    root: Uri,
    nothing: Result<String, RouterError<E>>,
)
    requires
        name.len() > 0,
        name != seq!['.'],
        forall|i: int| 0 <= i < name.len() ==> name[i] != '/',
        uri.path@ == seq!['/'] + name + seq!['/'] + rest || uri.path@ == seq!['/'] + name,
        call_ensures(find_service_name, (&uri,), found),
        call_ensures(GrpcRouter::service::<E>, (&GrpcRouter, &uri), service),
        root.path@ == seq!['/'],
        call_ensures(GrpcRouter::service::<E>, (&GrpcRouter, &root), nothing),
    ensures
        found matches Some(found) && found@ == name,
        service matches Ok(service) && service@ == name,
        nothing == Err::<String, RouterError<E>>(RouterError::InvalidUri),
{
    law_path_begins_with_the_service(name, rest);
    let counts = |piece: Seq<char>| piece.len() > 0 && piece != seq!['.'];
    let none = seq![Seq::<char>::empty()];
    lemma_pieces_of_one(Seq::empty());
    lemma_pieces_after_separator(Seq::empty(), Seq::empty());
    assert(Seq::<char>::empty() + seq!['/'] + Seq::<char>::empty() =~= seq!['/']);
    assert(pieces(seq!['/']) =~= none + none);
    reveal_with_fuel(Seq::filter, 2);
    assert(none.drop_last() =~= Seq::empty());
    assert(none.filter(counts) =~= Seq::empty());
    Seq::filter_distributes_over_add(none, none, counts);
    assert(path_components(root@.path).len() == 1);
}

/// A request that is passed on has the name of its service as its host, and keeps its path
/// and its query: the transport of a registry then takes it to that service.
pub proof fn law_request_is_passed_on_to_the_service<E, A, C>(
    uri: Uri,
    service: String,
    name: Authority,
    upstream: Result<Uri, RouterError<E>>,
    target: Uri,
    transport: roomservice::RegistryTransport<A, C>,
    route: roomservice::Route,
)
    requires
        call_ensures(
            GrpcRouter::upstream::<E>,
            (&GrpcRouter, uri, service, Some(name)),
            upstream,
        ),
        upstream is Ok ==> target == upstream->Ok_0,
        call_ensures(
            roomservice::RegistryTransport::<A, C>::call,
            (&transport, target),
            route,
        ),
    ensures
        upstream is Ok,
        target.path@ == uri.path@,
        target.query is Some <==> uri.query is Some,
        target.query is Some ==> target.query->0@ == uri.query->0@,
        target.authority is Some && target.authority->0@ == name@,
        route matches roomservice::Route::Service(reached) && reached@ == name@.host,
{
    assert(target@.path == uri@.path);
    assert(target@.query == uri@.query);
    assert(target@.authority == Some(name@));
}

/// A service that is not registered is told by its name. Where it is, the text of its
/// registration is read as the authority that the request goes to.
pub proof fn law_registered_name_is_the_host<E>(
    uri: Uri,
    service: String,
    name: &str,
    read: Result<Authority, uri::InvalidUri>,
    upstream: Option<Result<Uri, RouterError<E>>>,
    unknown: Option<Result<Uri, RouterError<E>>>,
    unnamed: Result<Uri, RouterError<E>>,
)
    requires
        call_ensures(Authority::parse, (name,), read),
        call_ensures(
            GrpcRouter::upstream_by_name::<E>,
            (&GrpcRouter, uri, service, Some(name)),
            upstream,
        ),
        call_ensures(
            GrpcRouter::upstream_by_name::<E>,
            (&GrpcRouter, uri, service, None::<&str>),
            unknown,
        ),
        call_ensures(
            GrpcRouter::upstream::<E>,
            (&GrpcRouter, uri, service, None::<Authority>),
            unnamed,
        ),
    ensures
        read is Err ==> upstream is None,
        read is Ok ==> {
            &&& upstream matches Some(Ok(target))
            &&& target@.authority == Some(read->Ok_0@)
            &&& target@.authority->0.text == name@
            &&& target@.path == uri.path@
            &&& target@.query == uri@.query
            &&& target@.scheme == Some(seq!['s', 'v', 'c'])
        },
        unnamed == Err::<Uri, RouterError<E>>(RouterError::ServiceNotFound(service)),
        unknown == Some(Err::<Uri, RouterError<E>>(RouterError::ServiceNotFound(service))),
{
    reveal_strlit("svc");
    assert("svc"@ =~= seq!['s', 'v', 'c']);
}

/// A request that was not passed on is told with the name of the service, or with what the
/// client said.
pub proof fn law_router_error_tells_its_reason<E>(
    error: RouterError<E>,
    cause: &str,
    shown: String,
)
    requires
        call_ensures(RouterError::<E>::to_string, (&error, cause), shown),
    ensures
        error is InvalidUri ==> shown@ == "invalid uri"@,
        error matches RouterError::ServiceNotFound(name) ==> shown@ == "service '"@ + name@
            + "' not found"@,
        error is Client ==> shown@ == "client: "@ + cause@,
{
}

/// The second of several texts is found where there is one.
pub proof fn law_second_text_is_found(parts: Vec<String>, part: Option<String>)
    requires
        call_ensures(second, (&parts,), part),
    ensures
        part is Some <==> parts@.len() >= 2,
        part is Some ==> part->0@ == parts@[1]@,
{
}

} // verus!
