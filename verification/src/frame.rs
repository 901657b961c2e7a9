//! What this library takes for granted about the frames and size hints of the
//! `http_body` crate.
//!
//! Nothing here is proved: each item states what `http_body` does, over what
//! a frame carries and over the two bounds of a size hint.

use vstd::prelude::*;
use bytes::Bytes;
use http_body::{Frame, SizeHint};
use crate::buffer::contents;

verus! {

/// `http_body::Frame`, one unit of a body: a chunk of data or the trailing
/// metadata.
#[verifier::external_type_specification]
#[verifier::external_body]
#[verifier::reject_recursive_types(T)]
pub struct ExFrame<T>(http_body::Frame<T>);

/// `http_body::SizeHint`, a lower and an optional upper bound on the bytes
/// that a body has yet to yield.
#[verifier::external_type_specification]
#[verifier::external_body]
pub struct ExSizeHint(http_body::SizeHint);

/// The bytes of a data frame, or `None` for a frame that carries no data.
pub uninterp spec fn frame_data(frame: Frame<Bytes>) -> Option<Seq<u8>>;

/// The lower bound of a size hint, as `SizeHint::lower` returns it.
pub uninterp spec fn hint_lower(hint: SizeHint) -> u64;

/// The upper bound of a size hint, as `SizeHint::upper` returns it.
pub uninterp spec fn hint_upper(hint: SizeHint) -> Option<u64>;

/// `Frame::data` makes a data frame that carries the given buffer.
#[verifier::external_body]
pub(crate) fn data_frame(buffer: Bytes) -> (frame: Frame<Bytes>)
    ensures
        frame_data(frame) == Some(contents(buffer)),
{
    Frame::data(buffer)
}

/// `Frame::into_data` hands out the buffer of a data frame, and hands any
/// other frame back unchanged.
#[verifier::external_body]
pub(crate) fn into_data(frame: Frame<Bytes>) -> (r: Result<Bytes, Frame<Bytes>>)
    ensures
        match r {
            Ok(buffer) => frame_data(frame) == Some(contents(buffer)),
            Err(other) => frame_data(frame) is None && other == frame,
        },
{
    frame.into_data()
}

/// `SizeHint::new` is the hint that promises nothing: no byte at least, and
/// no upper bound.
pub assume_specification[ SizeHint::new ]() -> (hint: SizeHint)
    ensures
        hint_lower(hint) == 0,
        hint_upper(hint) is None,
;

/// `SizeHint::with_exact` sets both bounds to the given value.
pub assume_specification[ SizeHint::with_exact ](value: u64) -> (hint: SizeHint)
    ensures
        hint_lower(hint) == value,
        hint_upper(hint) == Some(value),
;

} // verus!
