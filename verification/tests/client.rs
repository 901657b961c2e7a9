use std::sync::atomic::{AtomicUsize, Ordering};
use std::sync::Arc;

use bytes::Bytes;
use http_body::Frame;
use reggie::body::{to_bytes, to_text};
use reggie::client::{bridge_boxed, bridge_shared, normalize};
use reggie::source::Frames;
use reggie::{
    factory_arc, factory_box, Body, BoxedClient, Client, ClientFactory, DynamicClient, Error,
    HttpClient, HttpClientFactory, Request, Response,
};

fn status(code: u16) -> http::response::Parts {
    let (parts, _) = http::Response::builder()
        .status(code)
        .header("server", "stub")
        .body(())
        .unwrap()
        .into_parts();
    parts
}

fn request_with<B>(body: B) -> Request<B> {
    let (parts, body) = http::Request::builder()
        .method(http::Method::PUT)
        .uri("http://example.test/echo")
        .body(body)
        .unwrap()
        .into_parts();
    Request::from_parts(parts, body)
}

/// Answers 200 with the payload it was sent.
struct Echo;

impl HttpClient<Body> for Echo {
    type Body = Body;

    fn send(&self, request: Request<Body>) -> Result<Response<Body>, Error> {
        Ok(Response::from_parts(status(200), request.into_body()))
    }
}

/// Fails every request before anything is exchanged.
struct Refusing;

impl<B> HttpClient<B> for Refusing {
    type Body = Body;

    fn send(&self, _request: Request<B>) -> Result<Response<Body>, Error> {
        Err(Error::conn(String::from("connection refused")))
    }
}

/// Answers 202 with the request's target, as bytes of its own kind, and
/// counts its calls.
struct Target {
    calls: Arc<AtomicUsize>,
}

impl HttpClient<Body> for Target {
    type Body = Vec<u8>;

    fn send(&self, request: Request<Body>) -> Result<Response<Vec<u8>>, Error> {
        self.calls.fetch_add(1, Ordering::SeqCst);
        let target = request.parts.uri.to_string().into_bytes();
        Ok(Response::from_parts(status(202), target))
    }
}

#[test]
fn ping_is_echoed_with_status_200() {
    let client = Client::new(Echo);
    let response = client.request(request_with("ping")).unwrap();
    assert_eq!(response.parts.status, http::StatusCode::OK);
    assert_eq!(to_text(response.into_body()).unwrap(), "ping");
}

#[test]
fn connection_failure_is_passed_on() {
    let client = Client::new(Refusing);
    match client.request(request_with("ping")) {
        Err(Error::Connection(cause)) => assert_eq!(cause, "connection refused"),
        _ => panic!("expected a connection failure"),
    }
}

#[test]
fn request_takes_any_payload_that_converts() {
    let client = Client::new(Echo);
    let sent = client.request(request_with(vec![1u8, 2, 3])).unwrap();
    assert_eq!(&to_bytes(sent.into_body()).unwrap()[..], &[1u8, 2, 3]);
    let sent = client.request(request_with(String::from("text"))).unwrap();
    assert_eq!(to_text(sent.into_body()).unwrap(), "text");
    let sent = client.request(request_with(Bytes::from_static(b"raw"))).unwrap();
    assert_eq!(&to_bytes(sent.into_body()).unwrap()[..], b"raw");
    let sent = client.request(request_with(Body::empty())).unwrap();
    assert!(to_bytes(sent.into_body()).unwrap().is_empty());
}

#[test]
fn request_carries_a_streaming_payload_through() {
    let mut frames = Frames::new();
    frames.push(Ok(Frame::data(Bytes::from_static(b"part one, "))));
    frames.push(Ok(Frame::data(Bytes::from_static(b"part two"))));
    let client = Client::new(Echo);
    let response = client
        .request(request_with(Body::from_streaming(frames)))
        .unwrap();
    assert_eq!(to_text(response.into_body()).unwrap(), "part one, part two");
}

#[test]
fn the_bridge_answers_as_the_transport_does() {
    let direct = Echo.send(request_with(Body::from("same"))).unwrap();
    let bridged = Echo.boxed().send(request_with(Body::from("same"))).unwrap();
    assert_eq!(bridged.parts.status, direct.parts.status);
    assert_eq!(bridged.parts.version, direct.parts.version);
    assert_eq!(bridged.parts.headers, direct.parts.headers);
    assert_eq!(
        to_bytes(bridged.into_body()).unwrap(),
        to_bytes(direct.into_body()).unwrap()
    );
}

#[test]
fn the_bridge_alone_answers_as_the_transport_does() {
    let calls = Arc::new(AtomicUsize::new(0));
    let direct = Target { calls: calls.clone() }
        .send(request_with(Body::empty()))
        .unwrap();
    let bridge = BoxedClient::new(Target { calls: calls.clone() });
    let bridged = DynamicClient::send(&bridge, request_with(Body::empty())).unwrap();
    assert_eq!(bridged.parts.status, direct.parts.status);
    assert_eq!(bridged.parts.headers, direct.parts.headers);
    assert_eq!(&to_bytes(bridged.into_body()).unwrap()[..], &direct.body[..]);
    assert_eq!(calls.load(Ordering::SeqCst), 2);
    let refused = DynamicClient::<Body>::send(&BoxedClient::new(Refusing), request_with(Body::empty()));
    match refused {
        Err(Error::Connection(cause)) => assert_eq!(cause, "connection refused"),
        _ => panic!("expected the failure of the transport"),
    }
}

#[test]
fn the_bridge_normalizes_the_payload_of_the_transport() {
    let calls = Arc::new(AtomicUsize::new(0));
    let client = Client::new(Target { calls: calls.clone() });
    let response = client.request(request_with("ignored")).unwrap();
    assert_eq!(response.parts.status, http::StatusCode::ACCEPTED);
    assert_eq!(response.parts.headers["server"], "stub");
    assert_eq!(to_text(response.into_body()).unwrap(), "http://example.test/echo");
    assert_eq!(calls.load(Ordering::SeqCst), 1);
}

#[test]
fn clones_share_one_transport() {
    let calls = Arc::new(AtomicUsize::new(0));
    let client = Client::new(Target { calls: calls.clone() });
    let other = client.clone();
    client.request(request_with("a")).unwrap();
    other.request(request_with("b")).unwrap();
    other.clone().request(request_with("c")).unwrap();
    assert_eq!(calls.load(Ordering::SeqCst), 3);
}

#[test]
fn boxed_and_shared_clients_send_through_the_transport() {
    let boxed = Echo.boxed();
    let response = HttpClient::send(&boxed, request_with(Body::from("boxed"))).unwrap();
    assert_eq!(to_text(response.into_body()).unwrap(), "boxed");
    let shared = Echo.shared();
    let again = shared.clone();
    let response = HttpClient::send(&again, request_with(Body::from("shared"))).unwrap();
    assert_eq!(to_text(response.into_body()).unwrap(), "shared");
    let refusing: reggie::SharedClient<Body> = Refusing.shared();
    match HttpClient::send(&refusing, request_with(Body::empty())) {
        Err(error) => assert!(error.is_connection()),
        Ok(_) => panic!("expected a failure"),
    }
}

#[test]
fn bridge_boxed_answers_as_the_transport_does() {
    let calls = Arc::new(AtomicUsize::new(0));
    let boxed = bridge_boxed(Target { calls: calls.clone() });
    let response = DynamicClient::send(&*boxed, request_with(Body::empty())).unwrap();
    assert_eq!(response.parts.status, http::StatusCode::ACCEPTED);
    assert_eq!(to_text(response.into_body()).unwrap(), "http://example.test/echo");
    assert_eq!(calls.load(Ordering::SeqCst), 1);
    let refusing: reggie::BoxClient<Body> = bridge_boxed(Refusing);
    match DynamicClient::send(&*refusing, request_with(Body::empty())) {
        Err(Error::Connection(cause)) => assert_eq!(cause, "connection refused"),
        _ => panic!("expected the failure of the transport"),
    }
}

#[test]
fn bridge_shared_answers_as_the_transport_does() {
    let calls = Arc::new(AtomicUsize::new(0));
    let shared = bridge_shared(Target { calls: calls.clone() });
    let again = shared.clone();
    let response = HttpClient::send(&shared, request_with(Body::from("a"))).unwrap();
    assert_eq!(response.parts.status, http::StatusCode::ACCEPTED);
    let response = HttpClient::send(&again, request_with(Body::from("b"))).unwrap();
    assert_eq!(to_text(response.into_body()).unwrap(), "http://example.test/echo");
    assert_eq!(calls.load(Ordering::SeqCst), 2);
}

#[test]
fn a_boxed_client_is_a_dynamic_client() {
    let boxed = Echo.boxed();
    let response = DynamicClient::send(&*boxed, request_with(Body::from("dyn"))).unwrap();
    assert_eq!(response.parts.status, http::StatusCode::OK);
}

#[test]
fn normalize_keeps_the_head_and_converts_the_payload() {
    let inner: Result<Response<Vec<u8>>, Error> =
        Ok(Response::from_parts(status(206), vec![4u8, 5, 6]));
    let outcome = normalize(inner).unwrap();
    assert_eq!(outcome.parts.status, http::StatusCode::PARTIAL_CONTENT);
    assert_eq!(outcome.parts.headers["server"], "stub");
    assert_eq!(&to_bytes(outcome.into_body()).unwrap()[..], &[4u8, 5, 6]);
}

#[test]
fn normalize_leaves_a_failure_as_it_is() {
    let inner: Result<Response<String>, Error> = Err(Error::conn(String::from("no route")));
    match normalize(inner) {
        Err(Error::Connection(cause)) => assert_eq!(cause, "no route"),
        _ => panic!("expected the failure"),
    }
    let inner: Result<Response<String>, Error> = Err(Error::body(String::from("bad body")));
    match normalize(inner) {
        Err(Error::Body(cause)) => assert_eq!(cause, "bad body"),
        _ => panic!("expected the failure"),
    }
}

/// Makes a fresh `Target` for every client and counts the clients made.
struct Targets {
    made: Arc<AtomicUsize>,
    calls: Arc<AtomicUsize>,
}

impl HttpClientFactory for Targets {
    type Client = Target;

    fn create(&self) -> Target {
        self.made.fetch_add(1, Ordering::SeqCst);
        Target { calls: self.calls.clone() }
    }
}

#[test]
fn a_boxed_factory_makes_independent_clients() {
    let made = Arc::new(AtomicUsize::new(0));
    let calls = Arc::new(AtomicUsize::new(0));
    let factory = factory_box(Targets { made: made.clone(), calls: calls.clone() });
    let first = factory.create();
    let second = factory.create();
    assert_eq!(made.load(Ordering::SeqCst), 2);
    let response = first.request(request_with("x")).unwrap();
    assert_eq!(response.parts.status, http::StatusCode::ACCEPTED);
    second.request(request_with("y")).unwrap();
    assert_eq!(calls.load(Ordering::SeqCst), 2);
}

#[test]
fn a_shared_factory_makes_clients_from_every_holder() {
    let made = Arc::new(AtomicUsize::new(0));
    let calls = Arc::new(AtomicUsize::new(0));
    let factory = factory_arc(Targets { made: made.clone(), calls: calls.clone() });
    let other = factory.clone();
    let client = factory.create();
    let another = other.create();
    assert_eq!(made.load(Ordering::SeqCst), 2);
    let response = client.request(request_with("x")).unwrap();
    assert_eq!(to_text(response.into_body()).unwrap(), "http://example.test/echo");
    another.request(request_with("y")).unwrap();
    assert_eq!(calls.load(Ordering::SeqCst), 2);
}
