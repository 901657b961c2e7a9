//! The chunked-read protocol: a source hands out its frames one at a time,
//! in order, until it reports the end.
//!
//! A source is described by the events it has yet to produce. Everything
//! that drains or streams a body is stated over that sequence.

use vstd::prelude::*;
use bytes::Bytes;
use http_body::{Frame, SizeHint};
use crate::error::Error;
use crate::frame::{frame_data, hint_lower, hint_upper};

verus! {

/// What one read of a source amounts to, once the frame's inside is set
/// aside: a chunk of data, a frame without data, or a failure.
pub enum Event {
    Data(Seq<u8>),
    Meta,
    Failed(Error),
}

/// The event that a read result stands for.
pub open spec fn event_of(item: Result<Frame<Bytes>, Error>) -> Event {
    match item {
        Ok(frame) => match frame_data(frame) {
            Some(data) => Event::Data(data),
            None => Event::Meta,
        },
        Err(error) => Event::Failed(error),
    }
}

/// The events of a sequence of read results, one for one.
pub open spec fn events_of(items: Seq<Result<Frame<Bytes>, Error>>) -> Seq<Event> {
    items.map_values(|item: Result<Frame<Bytes>, Error>| event_of(item))
}

/// The bytes `front` followed by what `rest` gathered, or the failure that
/// `rest` ran into.
pub open spec fn joined(front: Seq<u8>, rest: Result<Seq<u8>, Error>) -> Result<Seq<u8>, Error> {
    match rest {
        Ok(bytes) => Ok(front + bytes),
        Err(error) => Err(error),
    }
}

/// What draining a sequence of events gathers: the data chunks up to the
/// end, concatenated in order, with frames that carry no data left out; or
/// the first failure, if there is one.
pub open spec fn collected(events: Seq<Event>) -> Result<Seq<u8>, Error>
    decreases events.len(),
{
    if events.len() == 0 {
        Ok(Seq::<u8>::empty())
    } else {
        match events[0] {
            Event::Data(chunk) => joined(chunk, collected(events.drop_first())),
            Event::Meta => collected(events.drop_first()),
            Event::Failed(error) => Err(error),
        }
    }
}

/// The events that are left once the frames without data at the front are
/// passed over.
pub open spec fn skip_meta(events: Seq<Event>) -> Seq<Event>
    decreases events.len(),
{
    if events.len() > 0 && events[0] is Meta {
        skip_meta(events.drop_first())
    } else {
        events
    }
}

/// What a lazy reader of the events sees, item by item: each data chunk and
/// each failure in its place, and no trace of the frames without data.
pub open spec fn yielded(events: Seq<Event>) -> Seq<Result<Seq<u8>, Error>>
    decreases events.len(),
{
    if events.len() == 0 {
        Seq::<Result<Seq<u8>, Error>>::empty()
    } else {
        match events[0] {
            Event::Data(chunk) => seq![Ok(chunk)] + yielded(events.drop_first()),
            Event::Meta => yielded(events.drop_first()),
            Event::Failed(error) => seq![Err(error)] + yielded(events.drop_first()),
        }
    }
}

/// A producer of frames, read by pulling.
///
/// `pending` is the whole of what the source will still produce. A read
/// takes the first pending event; once nothing is pending every read
/// reports the end. `bounds` and `ended` are the two hints that the source
/// gives of itself.
pub trait FrameSource: Send {
    /// The events still to come, first to last.
    spec fn pending(&self) -> Seq<Event>;

    /// The lower and the upper bound that the source gives for the bytes
    /// still to come.
    spec fn bounds(&self) -> (u64, Option<u64>);

    /// Whether the source says of itself that it has reached its end.
    spec fn ended(&self) -> bool;

    /// Reads the next frame: `None` at the end of the stream, else the first
    /// pending event, which is then gone.
    fn poll_frame(&mut self) -> (polled: Option<Result<Frame<Bytes>, Error>>)
        ensures
            match polled {
                Some(item) => {
                    &&& old(self).pending().len() > 0
                    &&& event_of(item) == old(self).pending()[0]
                    &&& final(self).pending() == old(self).pending().drop_first()
                },
                None => old(self).pending().len() == 0 && final(self).pending().len() == 0,
            },
    ;

    /// The bounds on the bytes still to come, as a size hint.
    fn size_hint(&self) -> (hint: SizeHint)
        ensures
            hint_lower(hint) == self.bounds().0,
            hint_upper(hint) == self.bounds().1,
    ;

    /// A hint that the end has been reached: `true` only when nothing is
    /// pending; `false` says nothing.
    fn is_end_stream(&self) -> (ended: bool)
        ensures
            ended == self.ended(),
            ended ==> self.pending().len() == 0,
    ;
}

/// A source whose frames are all at hand: they are handed out in the order
/// in which they were queued.
pub struct Frames {
    queue: Vec<Result<Frame<Bytes>, Error>>,
}

impl Frames {
    /// A source with nothing to produce.
    pub fn new() -> (frames: Frames)
        ensures
            frames.pending().len() == 0,
    {
        Frames { queue: Vec::new() }
    }

    /// Queues one more read result behind those already there.
    pub fn push(&mut self, item: Result<Frame<Bytes>, Error>)
        ensures
            final(self).pending() == old(self).pending().push(event_of(item)),
    {
        self.queue.push(item);
        assert(events_of(self.queue@) =~= events_of(old(self).queue@).push(event_of(item)));
    }
}

impl FrameSource for Frames {
    closed spec fn pending(&self) -> Seq<Event> {
        events_of(self.queue@)
    }

    /// A queue promises nothing about its size.
    open spec fn bounds(&self) -> (u64, Option<u64>) {
        (0, None)
    }

    /// A queue is at its end exactly when it is empty.
    open spec fn ended(&self) -> bool {
        self.pending().len() == 0
    }

    fn poll_frame(&mut self) -> (polled: Option<Result<Frame<Bytes>, Error>>)
    {
        if self.queue.len() == 0 {
            None
        } else {
            let item = self.queue.remove(0);
            assert(events_of(self.queue@) =~= events_of(old(self).queue@).drop_first());
            Some(item)
        }
    }

    fn size_hint(&self) -> (hint: SizeHint)
    {
        SizeHint::new()
    }

    fn is_end_stream(&self) -> (ended: bool)
    {
        self.queue.len() == 0
    }
}

/// The events of a stream that carries data chunks and nothing else.
pub open spec fn data_events(chunks: Seq<Seq<u8>>) -> Seq<Event> {
    Seq::new(chunks.len(), |i: int| Event::Data(chunks[i]))
}

/// The item that a lazy reader gets for an event that is not passed over.
pub open spec fn item_of(event: Event) -> Result<Seq<u8>, Error> {
    match event {
        Event::Data(chunk) => Ok(chunk),
        Event::Meta => Ok(Seq::<u8>::empty()),
        Event::Failed(error) => Err(error),
    }
}

/// Draining a stream of data chunks gathers their concatenation, in order.
pub proof fn lemma_collected_chunks(chunks: Seq<Seq<u8>>)
    ensures
        collected(data_events(chunks)) == Ok::<Seq<u8>, Error>(chunks.flatten()),
    decreases chunks.len(),
{
    if chunks.len() == 0 {
        assert(chunks.flatten() =~= Seq::<u8>::empty());
    } else {
        lemma_collected_chunks(chunks.drop_first());
        assert(data_events(chunks).drop_first() =~= data_events(chunks.drop_first()));
        assert(chunks.flatten() =~= chunks[0] + chunks.drop_first().flatten());
    }
}

/// Draining one stretch of events and then another gathers what the first
/// gives followed by what the second gives; a failure in the first stretch
/// ends the drain there.
pub proof fn lemma_collected_concat(front: Seq<Event>, back: Seq<Event>)
    ensures
        collected(front + back) == match collected(front) {
            Ok(bytes) => joined(bytes, collected(back)),
            Err(error) => Err(error),
        },
    decreases front.len(),
{
    if front.len() == 0 {
        assert(front + back =~= back);
        match collected(back) {
            Ok(bytes) => {
                assert(Seq::<u8>::empty() + bytes =~= bytes);
            },
            Err(_) => {},
        }
    } else {
        lemma_collected_concat(front.drop_first(), back);
        assert((front + back).drop_first() =~= front.drop_first() + back);
        match front[0] {
            Event::Data(chunk) => {
                match (collected(front.drop_first()), collected(back)) {
                    (Ok(rest), Ok(bytes)) => {
                        assert(chunk + (rest + bytes) =~= (chunk + rest) + bytes);
                    },
                    _ => {},
                }
            },
            _ => {},
        }
    }
}

/// A frame without data changes nothing in what a drain gathers.
pub proof fn lemma_collected_ignores_meta(front: Seq<Event>, back: Seq<Event>)
    ensures
        collected(front + seq![Event::Meta] + back) == collected(front + back),
{
    lemma_collected_concat(front, seq![Event::Meta] + back);
    lemma_collected_concat(front, back);
    assert((seq![Event::Meta] + back).drop_first() =~= back);
    assert(front + seq![Event::Meta] + back =~= front + (seq![Event::Meta] + back));
}

/// A lazy reader of one stretch of events and then another sees the items
/// of the first followed by the items of the second.
pub proof fn lemma_yielded_concat(front: Seq<Event>, back: Seq<Event>)
    ensures
        yielded(front + back) == yielded(front) + yielded(back),
    decreases front.len(),
{
    if front.len() == 0 {
        assert(front + back =~= back);
        assert(yielded(front) + yielded(back) =~= yielded(back));
    } else {
        lemma_yielded_concat(front.drop_first(), back);
        assert((front + back).drop_first() =~= front.drop_first() + back);
        let first = match front[0] {
            Event::Data(chunk) => seq![Ok::<Seq<u8>, Error>(chunk)],
            Event::Meta => Seq::<Result<Seq<u8>, Error>>::empty(),
            Event::Failed(error) => seq![Err::<Seq<u8>, Error>(error)],
        };
        assert(yielded(front) =~= first + yielded(front.drop_first()));
        assert(yielded(front + back) =~= first + yielded(front.drop_first() + back));
        assert(first + (yielded(front.drop_first()) + yielded(back)) =~= (first + yielded(
            front.drop_first(),
        )) + yielded(back));
    }
}

/// A lazy reader sees each data chunk and each failure as one item, and
/// sees nothing of a frame without data.
pub proof fn lemma_yielded_single(event: Event)
    ensures
        yielded(seq![event]) == match event {
            Event::Data(chunk) => seq![Ok::<Seq<u8>, Error>(chunk)],
            Event::Meta => Seq::<Result<Seq<u8>, Error>>::empty(),
            Event::Failed(error) => seq![Err::<Seq<u8>, Error>(error)],
        },
{
    assert(seq![event].drop_first() =~= Seq::<Event>::empty());
    assert(yielded(seq![event].drop_first()) =~= Seq::<Result<Seq<u8>, Error>>::empty());
    match event {
        Event::Data(chunk) => {
            assert(seq![Ok::<Seq<u8>, Error>(chunk)] + Seq::<Result<Seq<u8>, Error>>::empty()
                =~= seq![Ok::<Seq<u8>, Error>(chunk)]);
        },
        Event::Meta => {},
        Event::Failed(error) => {
            assert(seq![Err::<Seq<u8>, Error>(error)] + Seq::<Result<Seq<u8>, Error>>::empty()
                =~= seq![Err::<Seq<u8>, Error>(error)]);
        },
    }
}

/// A lazy reader of a stream of data chunks sees exactly the chunks, in
/// order.
pub proof fn lemma_yielded_chunks(chunks: Seq<Seq<u8>>)
    ensures
        yielded(data_events(chunks)) == Seq::new(
            chunks.len(),
            |i: int| Ok::<Seq<u8>, Error>(chunks[i]),
        ),
    decreases chunks.len(),
{
    let items = Seq::new(chunks.len(), |i: int| Ok::<Seq<u8>, Error>(chunks[i]));
    if chunks.len() == 0 {
        assert(yielded(data_events(chunks)) =~= items);
    } else {
        let rest = chunks.drop_first();
        lemma_yielded_chunks(rest);
        assert(data_events(chunks).drop_first() =~= data_events(rest));
        assert(seq![Ok::<Seq<u8>, Error>(chunks[0])] + Seq::new(
            rest.len(),
            |i: int| Ok::<Seq<u8>, Error>(rest[i]),
        ) =~= items);
    }
}

/// Data, then a frame without data, then data again: a lazy reader sees the
/// two chunks in their order and nothing between them.
pub proof fn lemma_yielded_around_meta(first: Seq<u8>, second: Seq<u8>)
    ensures
        yielded(seq![Event::Data(first), Event::Meta, Event::Data(second)]) == seq![
            Ok::<Seq<u8>, Error>(first),
            Ok::<Seq<u8>, Error>(second),
        ],
{
    let events = seq![Event::Data(first), Event::Meta, Event::Data(second)];
    lemma_yielded_concat(seq![Event::Data(first)], seq![Event::Meta, Event::Data(second)]);
    lemma_yielded_concat(seq![Event::Meta], seq![Event::Data(second)]);
    lemma_yielded_single(Event::Data(first));
    lemma_yielded_single(Event::Meta);
    lemma_yielded_single(Event::Data(second));
    assert(events =~= seq![Event::Data(first)] + seq![Event::Meta, Event::Data(second)]);
    assert(seq![Event::Meta, Event::Data(second)] =~= seq![Event::Meta] + seq![
        Event::Data(second),
    ]);
    assert(seq![Ok::<Seq<u8>, Error>(first)] + (Seq::<Result<Seq<u8>, Error>>::empty() + seq![
        Ok::<Seq<u8>, Error>(second),
    ]) =~= seq![Ok::<Seq<u8>, Error>(first), Ok::<Seq<u8>, Error>(second)]);
}

/// Passing over the frames without data at the front changes nothing in
/// what a lazy reader sees; what is then at the front, if anything, is the
/// reader's next item.
pub proof fn lemma_yielded_after_skip(events: Seq<Event>)
    ensures
        yielded(skip_meta(events)) == yielded(events),
        skip_meta(events).len() > 0 ==> !(skip_meta(events)[0] is Meta),
        skip_meta(events).len() > 0 ==> yielded(events) == seq![item_of(skip_meta(events)[0])]
            + yielded(skip_meta(events).drop_first()),
        skip_meta(events).len() == 0 ==> yielded(events).len() == 0,
    decreases events.len(),
{
    if events.len() > 0 && events[0] is Meta {
        lemma_yielded_after_skip(events.drop_first());
    }
}

} // verus!
