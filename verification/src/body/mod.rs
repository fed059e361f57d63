//! Bodies of requests and responses.
//!
//! A [`Body`] is empty, holds its bytes, or stands for a stream that somebody else
//! produces: what hyper receives from the other side, or a boxed body. The bytes
//! that a body holds are known; of a stream only its kind is.

use vstd::prelude::*;

use bytes::Bytes;
use http_body_util::combinators::UnsyncBoxBody;
use http_body_util::Full;

pub mod adapt;

verus! {

/// A chunk of shared bytes (`bytes::Bytes`). What it holds is named by
/// [`chunk`].
#[verifier::external_type_specification]
#[verifier::external_body]
pub struct ExBytes(bytes::Bytes);

/// A body of one chunk (`http_body_util::Full`). What it has still to give is
/// named by [`rest`].
#[verifier::external_type_specification]
#[verifier::external_body]
#[verifier::reject_recursive_types(D)]
pub struct ExFull<D>(http_body_util::Full<D>);

/// A boxed body of any kind (`http_body_util::combinators::UnsyncBoxBody`).
#[verifier::external_type_specification]
#[verifier::external_body]
#[verifier::reject_recursive_types(D)]
#[verifier::reject_recursive_types(E)]
pub struct ExUnsyncBoxBody<D, E>(http_body_util::combinators::UnsyncBoxBody<D, E>);

/// A body that arrives over a connection (`hyper::body::Incoming`).
#[verifier::external_type_specification]
#[verifier::external_body]
pub struct ExIncoming(hyper::body::Incoming);

/// The bytes of a chunk.
pub uninterp spec fn chunk(bytes: bytes::Bytes) -> Seq<u8>;

/// The bytes that a body of one chunk has still to give.
pub uninterp spec fn rest(body: http_body_util::Full<bytes::Bytes>) -> Seq<u8>;

/// Calls `Bytes::from` on a vector: the chunk holds the vector's bytes, in order.
#[verifier::external_body]
pub(crate) fn bytes_from_vec(data: Vec<u8>) -> (bytes: Bytes)
    ensures
        chunk(bytes) == data@,
{
    Bytes::from(data)
}

/// Calls `Bytes::len`: how many bytes the chunk holds.
#[verifier::external_body]
pub(crate) fn bytes_len(bytes: &Bytes) -> (length: usize)
    ensures
        length == chunk(*bytes).len(),
{
    bytes.len()
}

/// Calls `Full::new`, which keeps the chunk unless there is nothing in it: either
/// way the body gives the chunk's bytes.
#[verifier::external_body]
fn full_new(data: Bytes) -> (body: Full<Bytes>)
    ensures
        rest(body) == chunk(data),
{
    Full::new(data)
}

/// Calls `Full::clone`, which clones the chunk: the copy has the same bytes to
/// give.
#[verifier::external_body]
fn full_clone(body: &Full<Bytes>) -> (copy: Full<Bytes>)
    ensures
        rest(copy) == rest(*body),
{
    body.clone()
}

/// Calls `Full::is_end_stream`. The body has ended when there is no chunk in it.
/// It never holds an empty chunk, so this is when no byte is left.
#[verifier::external_body]
fn full_is_end_stream(body: &Full<Bytes>) -> (ended: bool)
    ensures
        ended == (rest(*body).len() == 0),
{
    http_body::Body::is_end_stream(body)
}

/// Calls `Full::size_hint`, whose bounds are both the number of bytes left.
#[verifier::external_body]
fn full_size_hint(body: &Full<Bytes>) -> (hint: SizeHint)
    ensures
        hint.lower == rest(*body).len(),
        hint.upper == Some(hint.lower),
{
    let hint = http_body::Body::size_hint(body);
    SizeHint { lower: hint.lower(), upper: hint.upper() }
}

/// Calls `Full::poll_frame`, which is always ready: it hands the chunk over as
/// one frame of data the first time, if there are bytes in it, and nothing from
/// then on.
#[verifier::external_body]
fn full_poll_frame(body: &mut Full<Bytes>) -> (data: Option<Bytes>)
    ensures
        rest(*final(body)).len() == 0,
        data is Some == (rest(*old(body)).len() > 0),
        data is Some ==> chunk(data->0) == rest(*old(body)),
{
    let waker = futures_util::task::noop_waker();
    let mut context = std::task::Context::from_waker(&waker);
    match http_body::Body::poll_frame(std::pin::Pin::new(body), &mut context) {
        std::task::Poll::Ready(Some(Ok(frame))) => frame.into_data().ok(),
        std::task::Poll::Ready(Some(Err(error))) => match error {},
        std::task::Poll::Ready(None) => None,
        std::task::Poll::Pending => None,
    }
}

/// Calls `Incoming::is_end_stream`. The answer depends on what has arrived.
#[verifier::external_body]
fn incoming_is_end_stream(body: &hyper::body::Incoming) -> bool {
    http_body::Body::is_end_stream(body)
}

/// Calls `Incoming::size_hint`. The answer depends on what has arrived.
#[verifier::external_body]
fn incoming_size_hint(body: &hyper::body::Incoming) -> SizeHint {
    let hint = http_body::Body::size_hint(body);
    SizeHint { lower: hint.lower(), upper: hint.upper() }
}

/// Calls `UnsyncBoxBody::is_end_stream`, which asks the body in the box. The
/// answer is that body's own.
#[verifier::external_body]
fn boxed_is_end_stream<E>(body: &UnsyncBoxBody<Bytes, E>) -> bool {
    http_body::Body::is_end_stream(body)
}

/// Calls `UnsyncBoxBody::size_hint`, which asks the body in the box. The answer
/// is that body's own.
#[verifier::external_body]
fn boxed_size_hint<E>(body: &UnsyncBoxBody<Bytes, E>) -> SizeHint {
    let hint = http_body::Body::size_hint(body);
    SizeHint { lower: hint.lower(), upper: hint.upper() }
}

/// Whether an incoming body may answer `ended` when it is asked whether it has ended.
/// What arrives between two questions may change the answer.
pub closed spec fn incoming_reports_end(body: hyper::body::Incoming, ended: bool) -> bool {
    call_ensures(incoming_is_end_stream, (&body,), ended)
}

/// Whether an incoming body may give `hint` when it is asked for its size.
pub closed spec fn incoming_reports_size(body: hyper::body::Incoming, hint: SizeHint) -> bool {
    call_ensures(incoming_size_hint, (&body,), hint)
}

/// Whether a boxed body may answer `ended` when it is asked whether it has ended.
pub closed spec fn boxed_reports_end<E>(body: UnsyncBoxBody<Bytes, E>, ended: bool) -> bool {
    call_ensures(boxed_is_end_stream::<E>, (&body,), ended)
}

/// Whether a boxed body may give `hint` when it is asked for its size.
pub closed spec fn boxed_reports_size<E>(body: UnsyncBoxBody<Bytes, E>, hint: SizeHint) -> bool {
    call_ensures(boxed_size_hint::<E>, (&body,), hint)
}

/// How many bytes a body will give: at least `lower`, and at most `upper` where
/// that is known.
#[derive(Debug, Clone, Copy, PartialEq, Eq, Structural)]
pub struct SizeHint {
    /// The least number of bytes.
    pub lower: u64,
    /// The greatest number of bytes, where it is known.
    pub upper: Option<u64>,
}

impl SizeHint {
    /// A hint that is exact.
    pub fn with_exact(value: u64) -> (hint: Self)
        ensures
            hint == (SizeHint { lower: value, upper: Some(value) }),
    {
        SizeHint { lower: value, upper: Some(value) }
    }

    /// The number of bytes, where the hint is exact.
    pub fn exact(&self) -> (size: Option<u64>)
        ensures
            size == (if self.upper == Some(self.lower) { Some(self.lower) } else { None }),
    {
        match self.upper {
            Some(upper) => if upper == self.lower { Some(upper) } else { None },
            None => None,
        }
    }
}

/// A body of a request or a response.
///
/// `E` is the error with which a body in a box may fail.
#[verifier::reject_recursive_types(E)]
pub struct Body<E> {
    inner: InnerBody<E>,
}

#[verifier::reject_recursive_types(E)]
enum InnerBody<E> {
    Empty,
    Full(Full<Bytes>),
    Incoming(hyper::body::Incoming),
    Boxed(UnsyncBoxBody<Bytes, E>),
}

/// What [`Body::new`] can be made from.
#[verifier::reject_recursive_types(E)]
pub enum Source<E> {
    /// A body of this kind already.
    Body(Body<E>),
    /// What arrives over a connection.
    Incoming(hyper::body::Incoming),
    /// Any other body, in a box.
    Boxed(UnsyncBoxBody<Bytes, E>),
}

impl<E> Source<E> {
    /// Whether the source may answer `ended` when it is asked whether it has ended.
    pub open spec fn reports_end(self, ended: bool) -> bool {
        match self {
            Source::Body(body) => body.reports_end(ended),
            Source::Incoming(body) => incoming_reports_end(body, ended),
            Source::Boxed(body) => boxed_reports_end(body, ended),
        }
    }

    /// Whether the source has nothing more to give.
    pub fn is_end_stream(&self) -> (ended: bool)
        ensures
            self.reports_end(ended),
    {
        match self {
            Source::Body(body) => body.is_end_stream(),
            Source::Incoming(body) => incoming_is_end_stream(body),
            Source::Boxed(body) => boxed_is_end_stream(body),
        }
    }
}

/// What a body has to give next.
pub enum NextFrame {
    /// A frame of data.
    Data(Bytes),
    /// Nothing more.
    End,
    /// Whatever the stream behind the body gives: ask that.
    Stream,
}

impl<E> Body<E> {
    /// The bytes that the body holds, unless it is a stream.
    pub closed spec fn bytes(self) -> Option<Seq<u8>> {
        match self.inner {
            InnerBody::Empty => Some(Seq::empty()),
            InnerBody::Full(body) => Some(rest(body)),
            InnerBody::Incoming(_) => None,
            InnerBody::Boxed(_) => None,
        }
    }

    /// Whether the body was made without bytes, and holds no chunk at all.
    pub closed spec fn is_empty_kind(self) -> bool {
        self.inner is Empty
    }

    /// The incoming stream that the body stands for.
    pub closed spec fn incoming_stream(self) -> Option<hyper::body::Incoming> {
        match self.inner {
            InnerBody::Incoming(body) => Some(body),
            _ => None,
        }
    }

    /// The boxed body that the body stands for.
    pub closed spec fn boxed_stream(self) -> Option<UnsyncBoxBody<Bytes, E>> {
        match self.inner {
            InnerBody::Boxed(body) => Some(body),
            _ => None,
        }
    }

    /// A body without bytes.
    pub fn empty() -> (body: Self)
        ensures
            body.is_empty_kind(),
            body.bytes() == Some(Seq::<u8>::empty()),
    {
        Body { inner: InnerBody::Empty }
    }

    /// A body that holds the bytes of a chunk.
    pub fn full(data: Bytes) -> (body: Self)
        ensures
            !body.is_empty_kind(),
            body.bytes() == Some(chunk(data)),
    {
        Body { inner: InnerBody::Full(full_new(data)) }
    }

    /// Whether the body may answer `ended` when it is asked whether it has ended: by the
    /// bytes that it holds, or by what its stream answers.
    pub open spec fn reports_end(self, ended: bool) -> bool {
        &&& self.bytes() matches Some(bytes) ==> ended == (bytes.len() == 0)
        &&& self.incoming_stream() matches Some(stream) ==> incoming_reports_end(stream, ended)
        &&& self.boxed_stream() matches Some(stream) ==> boxed_reports_end(stream, ended)
    }

    /// Whether the body may give `hint` when it is asked for its size: exactly the number
    /// of bytes that it holds, or what its stream answers.
    pub open spec fn reports_size(self, hint: SizeHint) -> bool {
        &&& self.bytes() matches Some(bytes) ==> hint.lower == bytes.len() && hint.upper == Some(
            hint.lower,
        )
        &&& self.incoming_stream() matches Some(stream) ==> incoming_reports_size(stream, hint)
        &&& self.boxed_stream() matches Some(stream) ==> boxed_reports_size(stream, hint)
    }

    /// Whether the body stands for `source`, which has ended or has not: one that has
    /// ended is dropped for an empty body, and a body of this type is taken as it is.
    pub open spec fn stands_for(self, source: Source<E>, ended: bool) -> bool {
        if ended {
            self.is_empty_kind() && self.bytes() == Some(Seq::<u8>::empty())
        } else {
            match source {
                Source::Body(given) => self == given,
                Source::Incoming(stream) => self.incoming_stream() == Some(stream),
                Source::Boxed(stream) => self.boxed_stream() == Some(stream),
            }
        }
    }

    /// A body that stands for another one. That one is asked whether it has ended.
    pub fn new(source: Source<E>) -> (body: Self)
        ensures
            exists|ended: bool| #[trigger] source.reports_end(ended) && body.stands_for(source, ended),
    {
        let ended = source.is_end_stream();
        Body::standing_for(source, ended)
    }

    /// A body that stands for another one. `ended` says whether that one has nothing
    /// more to give.
    pub fn standing_for(source: Source<E>, ended: bool) -> (body: Self)
        ensures
            body.stands_for(source, ended),
    {
        if ended {
            return Body::empty();
        }
        match source {
            Source::Body(body) => body,
            Source::Incoming(stream) => Body { inner: InnerBody::Incoming(stream) },
            Source::Boxed(stream) => Body { inner: InnerBody::Boxed(stream) },
        }
    }

    /// A copy of the body, where one can be made: streams are not copied.
    pub fn try_clone(&self) -> (copy: Option<Self>)
        ensures
            copy is Some == self.bytes() is Some,
            copy is Some ==> copy->0.bytes() == self.bytes(),
            copy is Some ==> copy->0.is_empty_kind() == self.is_empty_kind(),
    {
        match &self.inner {
            InnerBody::Full(body) => Some(Body { inner: InnerBody::Full(full_clone(body)) }),
            InnerBody::Empty => Some(Body { inner: InnerBody::Empty }),
            InnerBody::Incoming(_) => None,
            InnerBody::Boxed(_) => None,
        }
    }

    /// A body that holds a text in UTF-8. An empty text makes an empty body.
    pub fn from_string(text: String) -> (body: Self)
        ensures
            body.bytes() == Some(vstd::utf8::encode_utf8(text@)),
            body.is_empty_kind() == (vstd::utf8::encode_utf8(text@).len() == 0),
    {
        let data = text.as_str().as_bytes_vec();
        if data.len() == 0 {
            proof {
                assert(vstd::utf8::encode_utf8(text@) =~= Seq::<u8>::empty());
            }
            Body::empty()
        } else {
            Body::full(bytes_from_vec(data))
        }
    }

    /// A body that holds a text in UTF-8, as one chunk.
    pub fn from_text(text: &'static str) -> (body: Self)
        ensures
            !body.is_empty_kind(),
            body.bytes() == Some(vstd::utf8::encode_utf8(text@)),
    {
        Body::full(bytes_from_vec(text.as_bytes_vec()))
    }

    /// A body that holds the bytes of a vector, as one chunk.
    pub fn from_vec(data: Vec<u8>) -> (body: Self)
        ensures
            !body.is_empty_kind(),
            body.bytes() == Some(data@),
    {
        Body::full(bytes_from_vec(data))
    }

    /// A body of one chunk.
    pub fn from_full(data: Full<Bytes>) -> (body: Self)
        ensures
            !body.is_empty_kind(),
            body.bytes() == Some(rest(data)),
    {
        Body { inner: InnerBody::Full(data) }
    }

    /// What arrives over a connection.
    pub fn from_incoming(stream: hyper::body::Incoming) -> (body: Self)
        ensures
            body.incoming_stream() == Some(stream),
    {
        Body { inner: InnerBody::Incoming(stream) }
    }

    /// A body in a box.
    pub fn from_boxed(stream: UnsyncBoxBody<Bytes, E>) -> (body: Self)
        ensures
            body.boxed_stream() == Some(stream),
    {
        Body { inner: InnerBody::Boxed(stream) }
    }

    /// The stream behind the body, for the caller to box or to poll, or the body
    /// back where it holds its bytes.
    pub fn into_source(self) -> (source: Source<E>)
        ensures
            match source {
                Source::Body(body) => body == self && self.bytes() is Some,
                Source::Incoming(stream) => self.incoming_stream() == Some(stream),
                Source::Boxed(stream) => self.boxed_stream() == Some(stream),
            },
    {
        match self.inner {
            InnerBody::Incoming(stream) => Source::Incoming(stream),
            InnerBody::Boxed(stream) => Source::Boxed(stream),
            InnerBody::Full(data) => Source::Body(Body { inner: InnerBody::Full(data) }),
            InnerBody::Empty => Source::Body(Body { inner: InnerBody::Empty }),
        }
    }

    /// Takes what the body has to give next. Bytes that the body holds come as one
    /// frame, once.
    pub fn poll_frame(&mut self) -> (next: NextFrame)
        ensures
            match old(self).bytes() {
                Some(bytes) => {
                    &&& final(self).bytes() == Some(Seq::<u8>::empty())
                    &&& final(self).is_empty_kind() == old(self).is_empty_kind()
                    &&& match next {
                        NextFrame::Data(data) => bytes.len() > 0 && chunk(data) == bytes,
                        NextFrame::End => bytes.len() == 0,
                        NextFrame::Stream => false,
                    }
                },
                None => next is Stream && *final(self) == *old(self),
            },
    {
        match &mut self.inner {
            InnerBody::Empty => NextFrame::End,
            InnerBody::Full(body) => {
                let data = full_poll_frame(body);
                proof {
                    assert(rest(*body) =~= Seq::<u8>::empty());
                }
                match data {
                    Some(data) => NextFrame::Data(data),
                    None => NextFrame::End,
                }
            },
            InnerBody::Incoming(_) => NextFrame::Stream,
            InnerBody::Boxed(_) => NextFrame::Stream,
        }
    }

    /// Whether the body has nothing more to give. A stream answers for itself.
    pub fn is_end_stream(&self) -> (ended: bool)
        ensures
            self.reports_end(ended),
    {
        match &self.inner {
            InnerBody::Empty => true,
            InnerBody::Full(body) => full_is_end_stream(body),
            InnerBody::Incoming(body) => incoming_is_end_stream(body),
            InnerBody::Boxed(body) => boxed_is_end_stream(body),
        }
    }

    /// How many bytes the body will give. A stream answers for itself.
    pub fn size_hint(&self) -> (hint: SizeHint)
        ensures
            self.reports_size(hint),
    {
        match &self.inner {
            InnerBody::Empty => SizeHint::with_exact(0),
            InnerBody::Full(body) => full_size_hint(body),
            InnerBody::Incoming(body) => incoming_size_hint(body),
            InnerBody::Boxed(body) => boxed_size_hint(body),
        }
    }

    /// The name of the body's kind.
    pub fn kind(&self) -> (name: &'static str)
        ensures
            name@ == (if self.is_empty_kind() {
                "Empty"@
            } else if self.bytes() is Some {
                "Full"@
            } else if self.incoming_stream() is Some {
                "Incoming"@
            } else {
                "Boxed"@
            }),
    {
        match &self.inner {
            InnerBody::Empty => "Empty",
            InnerBody::Full(_) => "Full",
            InnerBody::Incoming(_) => "Incoming",
            InnerBody::Boxed(_) => "Boxed",
        }
    }
}

impl<E> Default for Body<E> {
    /// A body without bytes.
    fn default() -> (body: Self)
        ensures
            body.is_empty_kind(),
            body.bytes() == Some(Seq::<u8>::empty()),
    {
        Body { inner: InnerBody::Empty }
    }
}

/// A body made from a source that has not ended gives what the source gives: an incoming
/// stream, a boxed one, or the body that it was made from. Only a source that has ended
/// becomes an empty body.
pub proof fn law_body_gives_what_its_source_gives<E>(source: Source<E>, ended: bool, body: Body<E>)
    requires
        call_ensures(Body::<E>::standing_for, (source, ended), body),
    ensures
        !ended ==> match source {
            Source::Incoming(stream) => body.incoming_stream() == Some(stream) && body.bytes() is None,
            Source::Boxed(stream) => body.boxed_stream() == Some(stream) && body.bytes() is None,
            Source::Body(given) => body == given,
        },
        ended ==> body.bytes() == Some(Seq::<u8>::empty()) && body.incoming_stream() is None
            && body.boxed_stream() is None,
{
}

/// A source that answers, whenever it is asked, that it has not ended is what the body
/// stands for.
pub proof fn law_unended_source_is_kept<E>(source: Source<E>, body: Body<E>)
    requires
        call_ensures(Body::<E>::new, (source,), body),
    ensures
        match source {
            Source::Incoming(stream) => !incoming_reports_end(stream, true)
                ==> body.incoming_stream() == Some(stream),
            Source::Boxed(stream) => !boxed_reports_end(stream, true) ==> body.boxed_stream()
                == Some(stream),
            Source::Body(given) => given.bytes() is Some ==> body.bytes() == given.bytes(),
        },
{
    if let Source::Body(given) = source {
        if given.bytes() is Some && given.bytes()->0.len() == 0 {
            assert(given.bytes()->0 =~= Seq::empty());
        }
    }
}

/// What a body stands for can be had back from it, and a body made from that is the
/// same again: streams by their kind, and bytes as the body that holds them.
pub proof fn law_source_of_a_body_makes_it_again<E>(
    body: Body<E>,
    source: Source<E>,
    again: Body<E>,
)
    requires
        call_ensures(Body::<E>::into_source, (body,), source),
        call_ensures(Body::<E>::standing_for, (source, false), again),
    ensures
        again.bytes() == body.bytes(),
        again.incoming_stream() == body.incoming_stream(),
        again.boxed_stream() == body.boxed_stream(),
        again.is_empty_kind() == body.is_empty_kind(),
        body.incoming_stream() is Some ==> source == Source::<E>::Incoming(
            body.incoming_stream()->0,
        ),
        body.boxed_stream() is Some ==> source == Source::<E>::Boxed(body.boxed_stream()->0),
        body.bytes() is Some ==> source == Source::Body(body),
{
}

/// A body is one thing: it holds its bytes, or it stands for an incoming stream, or for
/// a boxed one.
pub proof fn law_body_is_one_thing<E>(body: Body<E>)
    ensures
        body.bytes() is Some <==> body.incoming_stream() is None && body.boxed_stream() is None,
        body.incoming_stream() is None || body.boxed_stream() is None,
        body.is_empty_kind() ==> body.bytes() == Some(Seq::<u8>::empty()),
{
}

/// A body that holds bytes has ended exactly when there are none left, and its size is
/// how many there are.
pub proof fn law_bytes_decide_end_and_size<E>(body: Body<E>, ended: bool, hint: SizeHint)
    requires
        call_ensures(Body::<E>::is_end_stream, (&body,), ended),
        call_ensures(Body::<E>::size_hint, (&body,), hint),
        body.bytes() is Some,
    ensures
        ended <==> body.bytes()->0.len() == 0,
        hint.lower == body.bytes()->0.len(),
        hint.upper == Some(hint.lower),
{
}

/// The bytes of a body come as one frame, and then no more: what two questions in a row
/// give is all that the body held, once.
pub proof fn law_bytes_come_once<E>(
    start: Body<E>,
    first: NextFrame,
    between: Body<E>,
    second: NextFrame,
    end: Body<E>,
)
    requires
        start.bytes() is Some,
        exists|body: &mut Body<E>|
            *body == start && *final(body) == between && #[trigger] call_ensures(
                Body::<E>::poll_frame,
                (body,),
                first,
            ),
        exists|body: &mut Body<E>|
            *body == between && *final(body) == end && #[trigger] call_ensures(
                Body::<E>::poll_frame,
                (body,),
                second,
            ),
    ensures
        start.bytes()->0.len() > 0 ==> (first matches NextFrame::Data(data) && chunk(data)
            == start.bytes()->0),
        start.bytes()->0.len() == 0 ==> first is End,
        second is End,
        between.bytes() == Some(Seq::<u8>::empty()),
{
}

/// A text or bytes that a body is made from are what it holds, and a copy of it holds
/// the same.
pub proof fn law_copy_holds_the_same<E>(data: Vec<u8>, body: Body<E>, copy: Option<Body<E>>)
    requires
        call_ensures(Body::<E>::from_vec, (data,), body),
        call_ensures(Body::<E>::try_clone, (&body,), copy),
    ensures
        body.bytes() == Some(data@),
        copy matches Some(copy) && copy.bytes() == Some(data@),
{
}

/// The error of a body: another error, kept as it is.
#[derive(Debug)]
pub struct BodyError<E> {
    inner: E,
}

impl<E> BodyError<E> {
    /// The error inside.
    pub closed spec fn spec_inner(self) -> E {
        self.inner
    }

    /// Wraps an error.
    pub fn new(error: E) -> (wrapped: Self)
        ensures
            wrapped.spec_inner() == error,
    {
        BodyError { inner: error }
    }

    /// The error inside.
    pub fn into_inner(self) -> (error: E)
        ensures
            error == self.spec_inner(),
    {
        self.inner
    }
}

/// A body that was made of bytes gives them in one frame, and then nothing; it knows how many
/// there are, and that it has not ended while there are any. A body made of nothing gives
/// nothing.
pub proof fn law_body_holds_what_it_was_made_of<E>(
    data: Vec<u8>,
    bytes: Bytes,
    shared: Full<Bytes>,
    text: String,
    words: &'static str,
    body: Body<E>,
    held: Seq<u8>,
    first: NextFrame,
    between: Body<E>,
    second: NextFrame,
    after: Body<E>,
    ended: bool,
    hint: SizeHint,
)
    requires
        ({
            ||| call_ensures(Body::<E>::from_vec, (data,), body) && held == data@
            ||| call_ensures(Body::<E>::full, (bytes,), body) && held == chunk(bytes)
            ||| call_ensures(Body::<E>::from_full, (shared,), body) && held == rest(shared)
            ||| call_ensures(Body::<E>::from_string, (text,), body) && held
                == vstd::utf8::encode_utf8(text@)
            ||| call_ensures(Body::<E>::from_text, (words,), body) && held
                == vstd::utf8::encode_utf8(words@)
            ||| call_ensures(Body::<E>::empty, (), body) && held == Seq::<u8>::empty()
            ||| call_ensures(Body::<E>::default, (), body) && held == Seq::<u8>::empty()
        }),
        call_ensures(Body::<E>::is_end_stream, (&body,), ended),
        call_ensures(Body::<E>::size_hint, (&body,), hint),
        exists|m: &mut Body<E>|
            *m == body && *final(m) == between && #[trigger] call_ensures(
                Body::<E>::poll_frame,
                (m,),
                first,
            ),
        exists|m: &mut Body<E>|
            *m == between && *final(m) == after && #[trigger] call_ensures(
                Body::<E>::poll_frame,
                (m,),
                second,
            ),
    ensures
        held.len() > 0 ==> (first matches NextFrame::Data(frame) && chunk(frame) == held),
        held.len() == 0 ==> first is End,
        second is End,
        ended <==> held.len() == 0,
        hint.lower == held.len(),
        hint.upper == Some(hint.lower),
{
}

/// A body that stands for a stream has that stream, whichever way it was made, and leaves
/// asking to whoever has the stream.
pub proof fn law_stream_is_left_to_be_asked<E>(
    incoming: hyper::body::Incoming,
    one: Body<E>,
    boxed: UnsyncBoxBody<Bytes, E>,
    other: Body<E>,
    first: Source<E>,
    second: Source<E>,
    next: NextFrame,
    after: Body<E>,
)
    requires
        call_ensures(Body::<E>::from_incoming, (incoming,), one),
        call_ensures(Body::<E>::from_boxed, (boxed,), other),
        call_ensures(Body::<E>::into_source, (one,), first),
        call_ensures(Body::<E>::into_source, (other,), second),
        exists|m: &mut Body<E>|
            *m == one && *final(m) == after && #[trigger] call_ensures(
                Body::<E>::poll_frame,
                (m,),
                next,
            ),
    ensures
        first == Source::<E>::Incoming(incoming),
        second == Source::<E>::Boxed(boxed),
        next is Stream,
        after == one,
{
}

/// The name of a body's kind says how it was made.
pub proof fn law_kind_says_how_it_was_made<E>(
    data: Vec<u8>,
    full: Body<E>,
    empty: Body<E>,
    incoming: hyper::body::Incoming,
    arriving: Body<E>,
    stream: UnsyncBoxBody<Bytes, E>,
    boxed: Body<E>,
    first: &'static str,
    second: &'static str,
    third: &'static str,
    fourth: &'static str,
)
    requires
        call_ensures(Body::<E>::from_vec, (data,), full),
        call_ensures(Body::<E>::empty, (), empty),
        call_ensures(Body::<E>::from_incoming, (incoming,), arriving),
        call_ensures(Body::<E>::from_boxed, (stream,), boxed),
        call_ensures(Body::<E>::kind, (&full,), first),
        call_ensures(Body::<E>::kind, (&empty,), second),
        call_ensures(Body::<E>::kind, (&arriving,), third),
        call_ensures(Body::<E>::kind, (&boxed,), fourth),
    ensures
        first@ == "Full"@,
        second@ == "Empty"@,
        third@ == "Incoming"@,
        fourth@ == "Boxed"@,
{
}

/// A size is known exactly where its bounds are the same.
pub proof fn law_size_is_exact_between_equal_bounds(
    value: u64,
    made: SizeHint,
    known: Option<u64>,
    hint: SizeHint,
    found: Option<u64>,
)
    requires
        call_ensures(SizeHint::with_exact, (value,), made),
        call_ensures(SizeHint::exact, (&made,), known),
        call_ensures(SizeHint::exact, (&hint,), found),
    ensures
        known == Some(value),
        found is Some <==> hint.upper is Some && hint.upper->0 == hint.lower,
        found matches Some(size) ==> size == hint.lower,
{
}

/// A source answers for itself whether it has ended: a body by what it holds, and a stream by
/// what the stream says. The error of a body is the one inside.
pub proof fn law_source_answers_for_itself<E>(
    data: Vec<u8>,
    body: Body<E>,
    ended: bool,
    incoming: hyper::body::Incoming,
    arriving_ended: bool,
    boxed: UnsyncBoxBody<Bytes, E>,
    boxed_ended: bool,
    error: E,
    wrapped: BodyError<E>,
    inner: E,
)
    requires
        call_ensures(Body::<E>::from_vec, (data,), body),
        call_ensures(Source::<E>::is_end_stream, (&Source::Body(body),), ended),
        call_ensures(Source::<E>::is_end_stream, (&Source::Incoming(incoming),), arriving_ended),
        call_ensures(Source::<E>::is_end_stream, (&Source::Boxed(boxed),), boxed_ended),
        call_ensures(BodyError::<E>::new, (error,), wrapped),
        call_ensures(BodyError::<E>::into_inner, (wrapped,), inner),
    ensures
        ended <==> data@.len() == 0,
        incoming_reports_end(incoming, arriving_ended),
        boxed_reports_end(boxed, boxed_ended),
        inner == error,
{
    assert(call_ensures(incoming_is_end_stream, (&incoming,), arriving_ended));
    assert(call_ensures(boxed_is_end_stream::<E>, (&boxed,), boxed_ended));
}

} // verus!
