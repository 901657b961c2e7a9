//! Reading the payload of a response: all at once, as bytes, text or a
//! decoded value, or chunk by chunk through a `DataStream`.

use vstd::prelude::*;
use vstd::utf8::{decode_utf8, valid_utf8};
use bytes::Bytes;
use http_body::Frame;
use crate::body::{to_bytes, to_json, to_text};
use crate::buffer::contents;
use crate::error::Error;
use crate::frame::{frame_data, into_data};
use crate::message::Response;
use crate::source::{collected, skip_meta, Event, FrameSource};

mod internal;

verus! {

/// What a response offers beyond its own methods. Every method uses up the
/// response.
pub trait ResponseExt<B: FrameSource>: internal::Internal {
    /// The payload of the response.
    spec fn payload(&self) -> B;

    /// Drains the payload and reads it as UTF-8 text.
    fn text(self) -> (r: Result<String, Error>)
        ensures
            match collected(self.payload().pending()) {
                Ok(data) => {
                    &&& valid_utf8(data) ==> r is Ok && r->Ok_0@ == decode_utf8(data)
                    &&& !valid_utf8(data) ==> r is Err && r->Err_0 is Body
                },
                Err(error) => r == Err::<String, Error>(error),
            },
    ;

    /// Drains the payload into one buffer.
    fn bytes(self) -> (r: Result<Bytes, Error>)
        ensures
            match collected(self.payload().pending()) {
                Ok(data) => r is Ok && contents(r->Ok_0) == data,
                Err(error) => r == Err::<Bytes, Error>(error),
            },
    ;

    /// Drains the payload and decodes it as JSON.
    fn json<T: serde::de::DeserializeOwned>(self) -> (r: Result<T, Error>)
        ensures
            match collected(self.payload().pending()) {
                Ok(_) => r is Err ==> r->Err_0 is Body,
                Err(error) => r == Err::<T, Error>(error),
            },
    ;

    /// The payload as a lazy sequence of data chunks. Nothing is read yet.
    fn bytes_stream(self) -> (stream: DataStream<B>)
        ensures
            stream.pending() == self.payload().pending(),
    ;
}

impl<B: FrameSource> ResponseExt<B> for Response<B> {
    open spec fn payload(&self) -> B {
        self.body
    }

    fn text(self) -> (r: Result<String, Error>)
    {
        to_text(self.into_body())
    }

    fn bytes(self) -> (r: Result<Bytes, Error>)
    {
        to_bytes(self.into_body())
    }

    fn json<T: serde::de::DeserializeOwned>(self) -> (r: Result<T, Error>)
    {
        to_json(self.into_body())
    }

    fn bytes_stream(self) -> (stream: DataStream<B>)
    {
        DataStream::wrap(self.into_body())
    }
}

/// A body read lazily, one data chunk per pull. It cannot be rewound.
pub struct DataStream<T>(T);

/// The event that an item of a `DataStream` stands for.
pub open spec fn item_event(item: Result<Bytes, Error>) -> Event {
    match item {
        Ok(chunk) => Event::Data(contents(chunk)),
        Err(error) => Event::Failed(error),
    }
}

/// What one read of a body means to a lazy reader of its data. `E` is the
/// type of the body's failures.
pub enum Pull<E> {
    /// An item to hand out: a chunk of data, or the failure of the read.
    Item(Result<Bytes, E>),
    /// A frame without data: read again.
    Skip,
    /// The end of the body.
    End,
}

/// Decides what a lazy reader does with the result of one read: a data
/// frame gives its chunk, a failure gives itself, any other frame is passed
/// over, and the end of the body ends the sequence.
pub fn sift<E>(polled: Option<Result<Frame<Bytes>, E>>) -> (pull: Pull<E>)
    ensures
        match polled {
            Some(Ok(frame)) => match frame_data(frame) {
                Some(data) => pull matches Pull::Item(Ok(chunk)) && contents(chunk) == data,
                None => pull is Skip,
            },
            Some(Err(error)) => pull == Pull::<E>::Item(Err(error)),
            None => pull is End,
        },
{
    match polled {
        Some(Ok(frame)) => {
            match into_data(frame) {
                Ok(chunk) => Pull::Item(Ok(chunk)),
                Err(_) => Pull::Skip,
            }
        },
        Some(Err(error)) => Pull::Item(Err(error)),
        None => Pull::End,
    }
}

impl<T: FrameSource> DataStream<T> {
    /// The events that the wrapped body has yet to produce.
    pub closed spec fn pending(&self) -> Seq<Event> {
        self.0.pending()
    }

    pub(crate) fn wrap(body: T) -> (stream: DataStream<T>)
        ensures
            stream.pending() == body.pending(),
    {
        DataStream(body)
    }

    /// Pulls the next item. Frames without data are passed over in silence;
    /// a data frame gives its chunk; a failure of the body gives that
    /// failure; at the end of the body the answer is `None`, now and on
    /// every later pull.
    pub fn poll_next(&mut self) -> (item: Option<Result<Bytes, Error>>)
        ensures
            match item {
                Some(found) => {
                    &&& skip_meta(old(self).pending()).len() > 0
                    &&& skip_meta(old(self).pending())[0] == item_event(found)
                    &&& final(self).pending() == skip_meta(old(self).pending()).drop_first()
                },
                None => skip_meta(old(self).pending()).len() == 0 && final(self).pending().len()
                    == 0,
            },
    {
        loop
            invariant
                skip_meta(self.pending()) == skip_meta(old(self).pending()),
            decreases self.pending().len(),
        {
            match sift(self.0.poll_frame()) {
                Pull::Item(found) => {
                    return Some(found);
                },
                Pull::Skip => {},
                Pull::End => {
                    return None;
                },
            }
        }
    }
}

} // verus!
