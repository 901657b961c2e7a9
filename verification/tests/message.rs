use reggie::request_ext::RequestExt;
use reggie::{Body, Request, Response, ResponseExt};

fn post_to(uri: &str) -> http::request::Parts {
    let (parts, _) = http::Request::builder()
        .method(http::Method::POST)
        .uri(uri)
        .header("x-trace", "abc123")
        .body(())
        .unwrap()
        .into_parts();
    parts
}

fn answer(status: u16) -> http::response::Parts {
    let (parts, _) = http::Response::builder()
        .status(status)
        .header("content-type", "text/plain")
        .body(())
        .unwrap()
        .into_parts();
    parts
}

#[test]
fn request_is_put_together_and_taken_apart() {
    let request = Request::from_parts(post_to("http://example.test/a"), 5u8);
    let (parts, body) = request.into_parts();
    assert_eq!(parts.method, http::Method::POST);
    assert_eq!(parts.uri, "http://example.test/a");
    assert_eq!(body, 5);
}

#[test]
fn request_map_changes_the_payload_only() {
    let request = Request::from_parts(post_to("http://example.test/b"), "seven");
    let mapped = request.map(|text: &str| text.len());
    assert_eq!(mapped.body, 5);
    assert_eq!(mapped.parts.method, http::Method::POST);
    assert_eq!(mapped.parts.uri, "http://example.test/b");
    assert_eq!(mapped.parts.headers["x-trace"], "abc123");
}

#[test]
fn map_body_changes_the_payload_only() {
    let request = Request::from_parts(post_to("http://example.test/c"), vec![1u8, 2, 3]);
    let mapped = request.map_body(|bytes: Vec<u8>| bytes.len() * 2);
    assert_eq!(mapped.into_body(), 6);
    let request = Request::from_parts(post_to("http://example.test/c"), 1u8);
    let mapped = request.map_body(|n: u8| n + 1);
    assert_eq!(mapped.parts.uri, "http://example.test/c");
    assert_eq!(mapped.parts.headers["x-trace"], "abc123");
    assert_eq!(mapped.body, 2);
}

#[test]
fn response_is_put_together_and_taken_apart() {
    let response = Response::from_parts(answer(404), "missing");
    assert_eq!(response.parts.status, http::StatusCode::NOT_FOUND);
    let (parts, body) = response.into_parts();
    assert_eq!(parts.headers["content-type"], "text/plain");
    assert_eq!(body, "missing");
}

#[test]
fn response_map_changes_the_payload_only() {
    let response = Response::from_parts(answer(201), vec![1u8, 2]);
    let mapped = response.map(Body::from);
    assert_eq!(mapped.parts.status, http::StatusCode::CREATED);
    assert_eq!(mapped.parts.headers["content-type"], "text/plain");
    assert_eq!(&mapped.bytes().unwrap()[..], &[1u8, 2]);
}

#[test]
fn response_text_drains_the_payload() {
    let response = Response::from_parts(answer(200), Body::from("pong"));
    assert_eq!(response.text().unwrap(), "pong");
}

#[test]
fn response_text_rejects_invalid_utf8() {
    let response = Response::from_parts(answer(200), Body::from(vec![0xffu8, 0xfe]));
    assert!(response.text().unwrap_err().is_body());
}

#[test]
fn response_bytes_drains_the_payload() {
    let response = Response::from_parts(answer(200), Body::from(vec![0u8, 255, 7]));
    assert_eq!(&response.bytes().unwrap()[..], &[0u8, 255, 7]);
}

#[test]
fn response_json_decodes_the_payload() {
    let response = Response::from_parts(answer(200), Body::from("[\"a\",\"b\"]"));
    let names: Vec<String> = response.json().unwrap();
    assert_eq!(names, vec![String::from("a"), String::from("b")]);
    let response = Response::from_parts(answer(200), Body::from("not json"));
    let failed: Result<Vec<String>, reggie::Error> = response.json();
    assert!(failed.unwrap_err().is_body());
}

#[test]
fn response_bytes_stream_reads_chunk_by_chunk() {
    let response = Response::from_parts(answer(200), Body::from("streamed"));
    let mut stream = response.bytes_stream();
    match stream.poll_next() {
        Some(Ok(chunk)) => assert_eq!(&chunk[..], b"streamed"),
        _ => panic!("expected a chunk"),
    }
    assert!(stream.poll_next().is_none());
}
