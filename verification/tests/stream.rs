use bytes::Bytes;
use http_body::Frame;
use reggie::body::to_stream;
use reggie::response_ext::{sift, DataStream, Pull};
use reggie::source::Frames;
use reggie::{Body, Error};

fn chunk_of(item: Option<Result<Bytes, Error>>) -> Bytes {
    match item {
        Some(Ok(chunk)) => chunk,
        Some(Err(_)) => panic!("expected a chunk, got a failure"),
        None => panic!("expected a chunk, got the end"),
    }
}

#[test]
fn stream_yields_the_data_frames_and_hides_the_metadata() {
    let mut frames = Frames::new();
    frames.push(Ok(Frame::data(Bytes::from_static(b"first"))));
    frames.push(Ok(Frame::trailers(http::HeaderMap::new())));
    frames.push(Ok(Frame::data(Bytes::from_static(b"second"))));
    let mut stream = to_stream(frames);
    assert_eq!(chunk_of(stream.poll_next()), Bytes::from_static(b"first"));
    assert_eq!(chunk_of(stream.poll_next()), Bytes::from_static(b"second"));
    assert!(stream.poll_next().is_none());
}

#[test]
fn stream_stays_at_its_end() {
    let mut stream = to_stream(Body::from("x"));
    assert_eq!(chunk_of(stream.poll_next()), Bytes::from_static(b"x"));
    assert!(stream.poll_next().is_none());
    assert!(stream.poll_next().is_none());
    assert!(stream.poll_next().is_none());
}

#[test]
fn stream_of_an_empty_body_yields_nothing() {
    let mut stream: DataStream<Body> = to_stream(Body::empty());
    assert!(stream.poll_next().is_none());
}

#[test]
fn stream_of_metadata_alone_yields_nothing() {
    let mut frames = Frames::new();
    frames.push(Ok(Frame::trailers(http::HeaderMap::new())));
    frames.push(Ok(Frame::trailers(http::HeaderMap::new())));
    let mut stream = to_stream(frames);
    assert!(stream.poll_next().is_none());
}

#[test]
fn stream_yields_a_failure_as_one_item() {
    let mut frames = Frames::new();
    frames.push(Ok(Frame::data(Bytes::from_static(b"good"))));
    frames.push(Ok(Frame::trailers(http::HeaderMap::new())));
    frames.push(Err(Error::body(String::from("broken pipe"))));
    let mut stream = to_stream(Body::from_streaming(frames));
    assert_eq!(chunk_of(stream.poll_next()), Bytes::from_static(b"good"));
    match stream.poll_next() {
        Some(Err(Error::Body(cause))) => assert_eq!(cause, "broken pipe"),
        _ => panic!("expected the failure"),
    }
    assert!(stream.poll_next().is_none());
}

#[test]
fn stream_keeps_an_empty_chunk() {
    let mut frames = Frames::new();
    frames.push(Ok(Frame::data(Bytes::new())));
    frames.push(Ok(Frame::data(Bytes::from_static(b"z"))));
    let mut stream = to_stream(frames);
    assert!(chunk_of(stream.poll_next()).is_empty());
    assert_eq!(chunk_of(stream.poll_next()), Bytes::from_static(b"z"));
    assert!(stream.poll_next().is_none());
}

#[test]
fn sift_hands_out_the_chunk_of_a_data_frame() {
    match sift::<Error>(Some(Ok(Frame::data(Bytes::from_static(b"chunk"))))) {
        Pull::Item(Ok(chunk)) => assert_eq!(chunk, Bytes::from_static(b"chunk")),
        _ => panic!("expected an item"),
    }
}

#[test]
fn sift_passes_over_a_frame_without_data() {
    assert!(matches!(
        sift::<Error>(Some(Ok(Frame::trailers(http::HeaderMap::new())))),
        Pull::Skip
    ));
}

#[test]
fn sift_hands_out_a_failure() {
    match sift(Some(Err(Error::conn(String::from("gone"))))) {
        Pull::Item(Err(Error::Connection(cause))) => assert_eq!(cause, "gone"),
        _ => panic!("expected the failure"),
    }
}

#[test]
fn sift_takes_failures_of_any_type() {
    match sift::<u16>(Some(Err(503))) {
        Pull::Item(Err(code)) => assert_eq!(code, 503),
        _ => panic!("expected the failure"),
    }
}

#[test]
fn sift_ends_at_the_end() {
    assert!(matches!(sift::<Error>(None), Pull::End));
}
