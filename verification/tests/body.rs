//! Bodies and what changes them.

use bytes::Bytes;
use hyperdriver::body::adapt::{
    MapResponseBodyFuture, Message, ProvideAsBodyService, ProvideViaMapBody, WrapAsBodyService,
    WrapRequestFromBody, WrapResponseIntoBody,
};
use hyperdriver::body::{Body, BodyError, NextFrame, SizeHint, Source};
use hyperdriver::poll::Poll;
use http_body_util::combinators::UnsyncBoxBody;
use http_body_util::{BodyExt, Empty, Full};

type TestBody = Body<std::convert::Infallible>;
type Boxed = UnsyncBoxBody<Bytes, std::convert::Infallible>;

#[test]
fn check_body_from_string() {
    let body = TestBody::from_string("Hello, World!".to_string());
    assert_eq!(body.size_hint().lower, 13);
    assert_eq!(body.size_hint().upper, Some(13));
    assert!(!body.is_end_stream());
}

#[test]
fn check_body_from_empty_string() {
    let body = TestBody::from_string("".to_string());
    assert_eq!(body.size_hint().lower, 0);
    assert_eq!(body.size_hint().upper, Some(0));
    assert!(body.is_end_stream());
    assert_eq!(body.kind(), "Empty");
}

#[test]
fn check_body_from_vec() {
    let body = TestBody::from_vec("Hello, World!".to_string().into_bytes());
    assert_eq!(body.size_hint().lower, 13);
    assert_eq!(body.size_hint().upper, Some(13));
    assert!(!body.is_end_stream());
}

#[test]
fn check_body_empty() {
    let body = TestBody::empty();
    assert_eq!(body.size_hint().lower, 0);
    assert_eq!(body.size_hint().upper, Some(0));
    assert!(body.is_end_stream());
}

#[test]
fn check_body_from_bytes() {
    let body = TestBody::full(Bytes::from("Hello, World!"));
    assert_eq!(body.size_hint().lower, 13);
    assert_eq!(body.size_hint().upper, Some(13));
    assert!(!body.is_end_stream());
}

#[test]
fn check_body_from_empty_bytes() {
    let body = TestBody::full(Bytes::new());
    assert_eq!(body.size_hint().lower, 0);
    assert_eq!(body.size_hint().upper, Some(0));
    assert!(body.is_end_stream());
    assert_eq!(body.kind(), "Full");
}

fn data(next: NextFrame) -> Option<Bytes> {
    match next {
        NextFrame::Data(bytes) => Some(bytes),
        _ => None,
    }
}

#[test]
fn bytes_come_out_once() {
    let mut body = TestBody::from_text("h\u{e9}llo");
    assert_eq!(body.size_hint().exact(), Some(6));
    assert_eq!(data(body.poll_frame()), Some(Bytes::from("h\u{e9}llo")));
    assert!(body.is_end_stream());
    assert_eq!(body.size_hint().exact(), Some(0));
    assert!(matches!(body.poll_frame(), NextFrame::End));
    assert!(matches!(TestBody::default().poll_frame(), NextFrame::End));
}

#[test]
fn copies_hold_the_same_bytes() {
    let mut body = TestBody::from_full(Full::new(Bytes::from("abc")));
    let mut copy = body.try_clone().unwrap();
    assert_eq!(data(body.poll_frame()), Some(Bytes::from("abc")));
    assert_eq!(data(copy.poll_frame()), Some(Bytes::from("abc")));
    assert_eq!(TestBody::empty().try_clone().unwrap().kind(), "Empty");
    let boxed = TestBody::from_boxed(Full::new(Bytes::from("abc")).boxed_unsync());
    assert!(boxed.try_clone().is_none());
}

#[test]
fn streams_answer_for_themselves() {
    let mut body = TestBody::from_boxed(Full::new(Bytes::from("abc")).boxed_unsync());
    assert_eq!(body.kind(), "Boxed");
    assert_eq!(body.size_hint(), SizeHint::with_exact(3));
    assert!(!body.is_end_stream());
    assert!(matches!(body.poll_frame(), NextFrame::Stream));
    assert!(matches!(body.into_source(), Source::Boxed(_)));
    let ended = TestBody::from_boxed(Empty::new().boxed_unsync());
    assert!(ended.is_end_stream());
    assert!(matches!(TestBody::empty().into_source(), Source::Body(_)));
    let unknown = SizeHint { lower: 1, upper: None };
    assert_eq!(unknown.exact(), None);
    assert_eq!(SizeHint { lower: 1, upper: Some(2) }.exact(), None);
}

#[test]
fn ended_bodies_become_empty() {
    let boxed: Boxed = Full::new(Bytes::from("abc")).boxed_unsync();
    assert_eq!(TestBody::standing_for(Source::Boxed(boxed), false).kind(), "Boxed");
    let boxed: Boxed = Empty::new().boxed_unsync();
    assert_eq!(TestBody::standing_for(Source::Boxed(boxed), true).kind(), "Empty");
    let body = TestBody::from_text("abc");
    assert_eq!(TestBody::standing_for(Source::Body(body), false).kind(), "Full");
}

#[test]
fn bodies_ask_what_they_stand_for() {
    let boxed: Boxed = Full::new(Bytes::from("abc")).boxed_unsync();
    let body = TestBody::new(Source::Boxed(boxed));
    assert_eq!(body.kind(), "Boxed");
    assert_eq!(body.size_hint().exact(), Some(3));
    let boxed: Boxed = Empty::new().boxed_unsync();
    assert_eq!(TestBody::new(Source::Boxed(boxed)).kind(), "Empty");
    assert_eq!(TestBody::new(Source::Body(TestBody::from_text("abc"))).kind(), "Full");
    assert_eq!(TestBody::new(Source::Body(TestBody::from_text(""))).kind(), "Empty");
    assert!(Source::Body(TestBody::empty()).is_end_stream());
}

#[test]
fn body_errors_keep_their_cause() {
    assert_eq!(BodyError::new("cause").into_inner(), "cause");
}

fn boxed(text: &'static str) -> Boxed {
    Full::new(Bytes::from(text)).boxed_unsync()
}

/// A body that only says where it came from.
struct Wrapped(Boxed);

impl From<Boxed> for Wrapped {
    fn from(body: Boxed) -> Self {
        Wrapped(body)
    }
}

fn sized(body: &Boxed) -> u64 {
    http_body::Body::size_hint(body).lower()
}

#[test]
fn responses_get_a_body() {
    let service = WrapResponseIntoBody::new("service");
    let response = Message { parts: 200, body: boxed("abc") };
    match service.respond::<_, _, ()>(Poll::Ready(Ok(response))) {
        Poll::Ready(Ok(message)) => {
            assert_eq!(message.parts, 200);
            assert_eq!(message.body.size_hint().exact(), Some(3));
        }
        _ => panic!("there is a response"),
    }
    let failed: Poll<Result<Message<u16, Boxed>, &str>> = Poll::Ready(Err("failed"));
    assert!(matches!(service.clone().respond(failed), Poll::Ready(Err("failed"))));
    let waiting: Poll<Result<Message<u16, Boxed>, &str>> = Poll::Pending;
    assert!(matches!(service.respond(waiting), Poll::Pending));
}

#[test]
fn requests_are_converted() {
    let mut service = WrapAsBodyService::new("service");
    assert_eq!(*service.service(), "service");
    *service.service_mut() = "other";
    let request: Message<&str, Wrapped> =
        service.request(Message { parts: "GET", body: boxed("abcd") });
    assert_eq!(request.parts, "GET");
    assert_eq!(sized(&request.body.0), 4);
    let response: Poll<Result<Message<u16, Wrapped>, ()>> =
        service.respond(Poll::Ready(Ok(Message { parts: 204, body: boxed("ab") })));
    match response {
        Poll::Ready(Ok(message)) => assert_eq!(sized(&message.body.0), 2),
        _ => panic!("there is a response"),
    }
    assert_eq!(service.clone().into_service(), "other");

    let provided = ProvideAsBodyService { service: "service" };
    let request: Message<(), Wrapped> =
        provided.clone().request(Message { parts: (), body: boxed("abc") });
    assert_eq!(sized(&request.body.0), 3);

    let mut wrapped = WrapRequestFromBody::new("service");
    *wrapped.service_mut() = "third";
    assert_eq!(*wrapped.service(), "third");
    let request: Message<(), TestBody> =
        wrapped.request(Message { parts: (), body: TestBody::from_text("abc") });
    assert_eq!(request.body.size_hint().exact(), Some(3));
    assert_eq!(wrapped.clone().into_service(), "third");
}

#[test]
fn bodies_are_mapped() {
    let service = ProvideViaMapBody::new("service", |n: u32| n + 1, |n: u32| n * 2);
    let request = service.request(Message { parts: "GET", body: 4 });
    assert_eq!((request.parts, request.body), ("GET", 5));
    let mut copy = service.clone();
    assert_eq!(*copy.service_mut(), "service");
    assert_eq!(copy.request(Message { parts: "GET", body: 6 }).body, 7);
    let waiting = service.response("future");
    match waiting.poll::<_, _, _, ()>(Poll::Ready(Ok(Message { parts: 200, body: 21 }))) {
        Poll::Ready(Ok(message)) => assert_eq!((message.parts, message.body), (200, 42)),
        _ => panic!("there is a response"),
    }
    let mut failed = MapResponseBodyFuture::new("future", |n: u32| n);
    assert_eq!(*failed.future_mut(), "future");
    let error: Poll<Result<Message<(), u32>, &str>> = Poll::Ready(Err("failed"));
    assert!(matches!(failed.poll(error), Poll::Ready(Err("failed"))));
    let mapped = Message { parts: 1, body: "abc" }.map(|text: &str| text.len());
    assert_eq!((mapped.parts, mapped.body), (1, 3));
}
