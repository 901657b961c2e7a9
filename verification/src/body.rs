//! The payload of a request or a response: bytes that are all at hand, or a
//! producer that hands out frames as they come.

use vstd::prelude::*;
use vstd::slice::slice_to_vec;
use vstd::std_specs::convert::FromSpecImpl;
use vstd::utf8::{
    decode_utf8, encode_utf8, encode_utf8_decode_utf8, encode_utf8_valid_utf8, valid_utf8,
};
use bytes::Bytes;
use serde_json::Error as JsonError;
use http_body::{Frame, SizeHint};
use crate::buffer::{as_slice, contents, from_vec};
use crate::error::Error;
use crate::frame::{data_frame, hint_lower, hint_upper, into_data};
use crate::source::{collected, joined, yielded, Event, FrameSource};
use crate::response_ext::DataStream;
use crate::text::{json_error_text, json_from_slice, string_from_utf8, utf8_error_text};

verus! {

enum Inner {
    Reusable(Bytes),
    Streaming(Box<dyn FrameSource>),
}

/// A producer as the streaming variant holds it: it reads as the producer
/// inside reads.
struct Streamed<S>(S);

impl<S: FrameSource> FrameSource for Streamed<S> {
    closed spec fn pending(&self) -> Seq<Event> {
        self.0.pending()
    }

    closed spec fn bounds(&self) -> (u64, Option<u64>) {
        self.0.bounds()
    }

    closed spec fn ended(&self) -> bool {
        self.0.ended()
    }

    fn poll_frame(&mut self) -> (polled: Option<Result<Frame<Bytes>, Error>>) {
        self.0.poll_frame()
    }

    fn size_hint(&self) -> (hint: SizeHint) {
        self.0.size_hint()
    }

    fn is_end_stream(&self) -> (ended: bool) {
        self.0.is_end_stream()
    }
}

/// A payload, buffered or streaming.
///
/// A buffered body gives all its bytes as one data frame and is empty from
/// then on. A streaming body gives whatever its producer gives.
pub struct Body {
    inner: Inner,
}

/// The events that buffered bytes amount to: one data frame holding all of
/// them, or nothing at all when there are none.
pub open spec fn buffered_events(bytes: Seq<u8>) -> Seq<Event> {
    if bytes.len() == 0 {
        Seq::<Event>::empty()
    } else {
        seq![Event::Data(bytes)]
    }
}

/// Buffered bytes are drained exactly once: a drain gathers all of them, a
/// lazy reader sees them as one chunk, and where no bytes are left there is
/// nothing more to read.
pub proof fn lemma_buffered_drains_once(bytes: Seq<u8>)
    ensures
        collected(buffered_events(bytes)) == Ok::<Seq<u8>, Error>(bytes),
        bytes.len() > 0 ==> yielded(buffered_events(bytes)) == seq![Ok::<Seq<u8>, Error>(bytes)],
        bytes.len() == 0 ==> buffered_events(bytes).len() == 0,
{
    if bytes.len() > 0 {
        let events = buffered_events(bytes);
        assert(events.drop_first() =~= Seq::<Event>::empty());
        assert(collected(events.drop_first()) == Ok::<Seq<u8>, Error>(Seq::<u8>::empty()));
        assert(bytes + Seq::<u8>::empty() =~= bytes);
        assert(yielded(events.drop_first()) =~= Seq::<Result<Seq<u8>, Error>>::empty());
        assert(yielded(events) =~= seq![Ok::<Seq<u8>, Error>(bytes)]);
    } else {
        assert(bytes =~= Seq::<u8>::empty());
    }
}

/// Text survives being buffered and read back: draining the buffered UTF-8
/// bytes of a text gathers bytes that are valid UTF-8 and decode to the
/// same text.
pub proof fn lemma_text_survives_buffering(text: Seq<char>)
    ensures
        collected(buffered_events(encode_utf8(text))) == Ok::<Seq<u8>, Error>(encode_utf8(text)),
        valid_utf8(encode_utf8(text)),
        decode_utf8(encode_utf8(text)) == text,
{
    lemma_buffered_drains_once(encode_utf8(text));
    encode_utf8_valid_utf8(text);
    encode_utf8_decode_utf8(text);
}

impl Body {
    /// Whether the body is buffered.
    pub closed spec fn is_reusable(&self) -> bool {
        self.inner is Reusable
    }

    /// The bytes that a buffered body still holds; empty for a streaming one.
    pub closed spec fn buffered(&self) -> Seq<u8> {
        match self.inner {
            Inner::Reusable(bytes) => contents(bytes),
            Inner::Streaming(_) => Seq::<u8>::empty(),
        }
    }

    /// A buffered body yields exactly what `buffered_events` says of its
    /// bytes, knows its size exactly, and is at its end exactly when no
    /// bytes are left.
    pub proof fn lemma_reusable_pending(&self)
        requires
            self.is_reusable(),
        ensures
            self.pending() == buffered_events(self.buffered()),
            self.bounds() == (
                self.buffered().len() as u64,
                Some(self.buffered().len() as u64),
            ),
            self.ended() == (self.buffered().len() == 0),
    {
    }

    /// A buffered body without bytes.
    pub fn empty() -> (body: Body)
        ensures
            body.is_reusable(),
            body.buffered() == Seq::<u8>::empty(),
            body.pending() == Seq::<Event>::empty(),
    {
        Body { inner: Inner::Reusable(Bytes::new()) }
    }

    /// A streaming body that reads from `inner`: it has the same frames to
    /// come and gives the same hints.
    pub fn from_streaming<S: FrameSource + 'static>(inner: S) -> (body: Body)
        ensures
            !body.is_reusable(),
            body.pending() == inner.pending(),
            body.bounds() == inner.bounds(),
            body.ended() == inner.ended(),
    {
        Body { inner: Inner::Streaming(Box::new(Streamed(inner))) }
    }

    fn from_buffer(bytes: Bytes) -> (body: Body)
        ensures
            body.is_reusable(),
            body.buffered() == contents(bytes),
            body.pending() == buffered_events(contents(bytes)),
    {
        Body { inner: Inner::Reusable(bytes) }
    }
}

impl FrameSource for Body {
    closed spec fn pending(&self) -> Seq<Event> {
        match self.inner {
            Inner::Reusable(bytes) => buffered_events(contents(bytes)),
            Inner::Streaming(source) => source.pending(),
        }
    }

    /// The exact number of bytes left for a buffered body; for a streaming
    /// body the bounds of its producer.
    closed spec fn bounds(&self) -> (u64, Option<u64>) {
        match self.inner {
            Inner::Reusable(bytes) => (
                contents(bytes).len() as u64,
                Some(contents(bytes).len() as u64),
            ),
            Inner::Streaming(source) => source.bounds(),
        }
    }

    /// A buffered body is at its end exactly when no bytes are left; a
    /// streaming body when its producer says so.
    closed spec fn ended(&self) -> bool {
        match self.inner {
            Inner::Reusable(bytes) => contents(bytes).len() == 0,
            Inner::Streaming(source) => source.ended(),
        }
    }

    /// Reads the next frame. A buffered body hands over all its bytes at
    /// once and keeps none; a streaming body asks its producer.
    fn poll_frame(&mut self) -> (polled: Option<Result<Frame<Bytes>, Error>>)
        ensures
            final(self).is_reusable() == old(self).is_reusable(),
            old(self).is_reusable() ==> final(self).buffered() == Seq::<u8>::empty(),
    {
        match &mut self.inner {
            Inner::Reusable(bytes) => {
                let ghost held = contents(*bytes);
                let out = bytes.split_off(0);
                assert(contents(out) =~= held);
                assert(contents(*bytes) =~= Seq::<u8>::empty());
                if out.is_empty() {
                    None
                } else {
                    assert(buffered_events(contents(out)).drop_first() =~= Seq::<Event>::empty());
                    Some(Ok(data_frame(out)))
                }
            },
            Inner::Streaming(source) => source.poll_frame(),
        }
    }

    /// The exact number of bytes left for a buffered body; for a streaming
    /// body whatever its producer says.
    fn size_hint(&self) -> (hint: SizeHint)
        ensures
            self.is_reusable() ==> hint_lower(hint) == self.buffered().len() && hint_upper(hint)
                == Some(self.buffered().len() as u64),
    {
        match &self.inner {
            Inner::Reusable(bytes) => SizeHint::with_exact(bytes.len() as u64),
            Inner::Streaming(source) => source.size_hint(),
        }
    }

    /// Whether the end is known to be reached: for a buffered body exactly
    /// when no bytes are left.
    fn is_end_stream(&self) -> (ended: bool)
        ensures
            self.is_reusable() ==> ended == (self.buffered().len() == 0),
    {
        match &self.inner {
            Inner::Reusable(bytes) => bytes.is_empty(),
            Inner::Streaming(source) => source.is_end_stream(),
        }
    }
}

impl<'a> From<&'a str> for Body {
    /// A buffered body holding the text's UTF-8 bytes.
    fn from(value: &'a str) -> (body: Body)
        ensures
            body.is_reusable(),
            body.buffered() == encode_utf8(value@),
            body.pending() == buffered_events(encode_utf8(value@)),
    {
        Body::from_buffer(from_vec(slice_to_vec(value.as_bytes())))
    }
}

impl<'a> FromSpecImpl<&'a str> for Body {
    open spec fn obeys_from_spec() -> bool {
        false
    }

    open spec fn from_spec(value: &'a str) -> Body {
        arbitrary()
    }
}

impl From<String> for Body {
    /// A buffered body holding the text's UTF-8 bytes.
    fn from(value: String) -> (body: Body)
        ensures
            body.is_reusable(),
            body.buffered() == encode_utf8(value@),
            body.pending() == buffered_events(encode_utf8(value@)),
    {
        Body::from_buffer(from_vec(slice_to_vec(value.as_str().as_bytes())))
    }
}

impl FromSpecImpl<String> for Body {
    open spec fn obeys_from_spec() -> bool {
        false
    }

    open spec fn from_spec(value: String) -> Body {
        arbitrary()
    }
}

impl From<Vec<u8>> for Body {
    /// A buffered body holding the given bytes.
    fn from(value: Vec<u8>) -> (body: Body)
        ensures
            body.is_reusable(),
            body.buffered() == value@,
            body.pending() == buffered_events(value@),
    {
        Body::from_buffer(from_vec(value))
    }
}

impl FromSpecImpl<Vec<u8>> for Body {
    open spec fn obeys_from_spec() -> bool {
        false
    }

    open spec fn from_spec(value: Vec<u8>) -> Body {
        arbitrary()
    }
}

impl From<Bytes> for Body {
    /// A buffered body holding the buffer's bytes.
    fn from(value: Bytes) -> (body: Body)
        ensures
            body.is_reusable(),
            body.buffered() == contents(value),
            body.pending() == buffered_events(contents(value)),
    {
        Body::from_buffer(value)
    }
}

impl FromSpecImpl<Bytes> for Body {
    open spec fn obeys_from_spec() -> bool {
        false
    }

    open spec fn from_spec(value: Bytes) -> Body {
        arbitrary()
    }
}

/// Reads `body` to its end and gathers the data it yields.
fn drain<T: FrameSource>(body: T) -> (r: Result<Vec<u8>, Error>)
    ensures
        match collected(body.pending()) {
            Ok(data) => r is Ok && r->Ok_0@ == data,
            Err(error) => r == Err::<Vec<u8>, Error>(error),
        },
{
    let mut source = body;
    let mut gathered: Vec<u8> = Vec::new();
    assert(joined(gathered@, collected(body.pending())) == collected(body.pending())) by {
        match collected(body.pending()) {
            Ok(bytes) => {
                assert(gathered@ + bytes =~= bytes);
            },
            Err(_) => {},
        }
    }
    loop
        invariant
            collected(body.pending()) == joined(gathered@, collected(source.pending())),
        decreases source.pending().len(),
    {
        let ghost before = source.pending();
        let ghost had = gathered@;
        match source.poll_frame() {
            None => {
                assert(gathered@ + Seq::<u8>::empty() =~= gathered@);
                return Ok(gathered);
            },
            Some(Err(error)) => {
                assert(before[0] == Event::Failed(error));
                return Err(error);
            },
            Some(Ok(frame)) => {
                match into_data(frame) {
                    Ok(chunk) => {
                        gathered.extend_from_slice(as_slice(&chunk));
                        assert(before[0] == Event::Data(contents(chunk)));
                        assert(collected(before) == joined(
                            contents(chunk),
                            collected(source.pending()),
                        ));
                        assert(gathered@ == had + contents(chunk));
                        proof {
                            match collected(source.pending()) {
                                Ok(rest) => {
                                    assert(had + (contents(chunk) + rest) =~= (had + contents(
                                        chunk,
                                    )) + rest);
                                },
                                Err(_) => {},
                            }
                        }
                    },
                    Err(_) => {
                        assert(before[0] == Event::Meta);
                    },
                }
            },
        }
    }
}

/// The text that `bytes` encode, or a `Body` failure when they are not
/// valid UTF-8.
pub fn text_from_bytes(bytes: Vec<u8>) -> (r: Result<String, Error>)
    ensures
        valid_utf8(bytes@) ==> r is Ok && r->Ok_0@ == decode_utf8(bytes@),
        !valid_utf8(bytes@) ==> r is Err && r->Err_0 is Body,
{
    match string_from_utf8(bytes) {
        Ok(text) => Ok(text),
        Err(error) => Err(Error::Body(utf8_error_text(&error))),
    }
}

/// Drains `body` into one buffer: its data chunks in order, frames without
/// data left out. The first failure of the body is returned as it is.
pub fn to_bytes<T: FrameSource>(body: T) -> (r: Result<Bytes, Error>)
    ensures
        match collected(body.pending()) {
            Ok(data) => r is Ok && contents(r->Ok_0) == data,
            Err(error) => r == Err::<Bytes, Error>(error),
        },
{
    match drain(body) {
        Ok(gathered) => Ok(from_vec(gathered)),
        Err(error) => Err(error),
    }
}

/// Drains `body` and reads its bytes as UTF-8 text. A failure of the body
/// is returned as it is; bytes that are not valid UTF-8 give a `Body`
/// failure.
pub fn to_text<T: FrameSource>(body: T) -> (r: Result<String, Error>)
    ensures
        match collected(body.pending()) {
            Ok(data) => {
                &&& valid_utf8(data) ==> r is Ok && r->Ok_0@ == decode_utf8(data)
                &&& !valid_utf8(data) ==> r is Err && r->Err_0 is Body
            },
            Err(error) => r == Err::<String, Error>(error),
        },
{
    match drain(body) {
        Ok(gathered) => text_from_bytes(gathered),
        Err(error) => Err(error),
    }
}

/// What a decoder's answer becomes: the value it decoded, or a `Body`
/// failure wrapping its complaint.
pub open spec fn decoded<T>(answer: Result<T, String>) -> Result<T, Error> {
    match answer {
        Ok(value) => Ok(value),
        Err(complaint) => Err(Error::Body(complaint)),
    }
}

/// Drains `body` and hands its bytes to `decode`. A failure of the body is
/// returned as it is and `decode` is not called; a value that `decode`
/// returns is passed on; a complaint of `decode` becomes a `Body` failure.
pub fn to_decoded<T, B: FrameSource, F: FnOnce(Vec<u8>) -> Result<T, String>>(
    body: B,
    decode: F,
) -> (r: Result<T, Error>)
    requires
        forall|bytes: Vec<u8>| call_requires(decode, (bytes,)),
    ensures
        match collected(body.pending()) {
            Ok(data) => exists|bytes: Vec<u8>, answer: Result<T, String>|
                bytes@ == data && call_ensures(decode, (bytes,), answer) && r == decoded(answer),
            Err(error) => r == Err::<T, Error>(error),
        },
{
    match drain(body) {
        Ok(gathered) => {
            let ghost bytes = gathered;
            let answer = decode(gathered);
            assert(call_ensures(decode, (bytes,), answer) && decoded(answer) == decoded(answer));
            match answer {
                Ok(value) => Ok(value),
                Err(complaint) => Err(Error::Body(complaint)),
            }
        },
        Err(error) => Err(error),
    }
}

/// What the answer of the JSON decoder becomes: the value it decoded, as
/// it is, or a `Body` failure that carries the decoder's complaint.
pub fn json_outcome<T>(answer: Result<T, JsonError>) -> (r: Result<T, Error>)
    ensures
        match answer {
            Ok(value) => r == Ok::<T, Error>(value),
            Err(_) => r is Err && r->Err_0 is Body,
        },
{
    match answer {
        Ok(value) => Ok(value),
        Err(error) => Err(Error::Body(json_error_text(&error))),
    }
}

/// The value that `bytes` hold as JSON, or a `Body` failure when they hold
/// none of the type asked for. The decoder alone decides which; what comes
/// of its answer is what `json_outcome` says.
pub fn json_from_bytes<T: serde::de::DeserializeOwned>(bytes: Vec<u8>) -> (r: Result<T, Error>)
    ensures
        r is Err ==> r->Err_0 is Body,
{
    json_outcome(json_from_slice::<T>(bytes.as_slice()))
}

/// Drains `body` and decodes its bytes as JSON. A failure of the body is
/// returned as it is; bytes that do not decode give a `Body` failure.
pub fn to_json<T: serde::de::DeserializeOwned, B: FrameSource>(body: B) -> (r: Result<T, Error>)
    ensures
        match collected(body.pending()) {
            Ok(_) => r is Err ==> r->Err_0 is Body,
            Err(error) => r == Err::<T, Error>(error),
        },
{
    match drain(body) {
        Ok(gathered) => json_from_bytes(gathered),
        Err(error) => Err(error),
    }
}

/// Wraps `body` as a lazy sequence of data chunks. Nothing is read yet.
pub fn to_stream<T: FrameSource>(body: T) -> (stream: DataStream<T>)
    ensures
        stream.pending() == body.pending(),
{
    DataStream::wrap(body)
}

} // verus!
