//! What this library takes for granted about `bytes::Bytes`, the shared byte
//! buffer that backs a buffered payload.
//!
//! Nothing here is proved: each item states, over the sequence of bytes that
//! a buffer holds, what the `bytes` crate does.

use vstd::prelude::*;
use bytes::Bytes;

verus! {

/// `bytes::Bytes`, an immutable, cheaply cloneable byte buffer. Its inside is
/// not visible here; `contents` stands for what it holds.
#[verifier::external_type_specification]
#[verifier::external_body]
pub struct ExBytes(bytes::Bytes);

/// The bytes that a buffer holds, in order.
pub uninterp spec fn contents(buffer: Bytes) -> Seq<u8>;

/// `Bytes::new` makes a buffer that holds no bytes.
pub assume_specification[ Bytes::new ]() -> (buffer: Bytes)
    ensures
        contents(buffer) == Seq::<u8>::empty(),
;

/// `Bytes::len` is the number of bytes held.
pub assume_specification[ Bytes::len ](buffer: &Bytes) -> (n: usize)
    ensures
        n == contents(*buffer).len(),
;

/// `Bytes::is_empty` tells whether no bytes are held.
pub assume_specification[ Bytes::is_empty ](buffer: &Bytes) -> (b: bool)
    ensures
        b == (contents(*buffer).len() == 0),
;

/// `Bytes::split_off` keeps the first `at` bytes in the buffer and returns
/// the rest. It panics when `at` is past the end, so that is ruled out.
pub assume_specification[ Bytes::split_off ](buffer: &mut Bytes, at: usize) -> (tail: Bytes)
    requires
        at <= contents(*old(buffer)).len(),
    ensures
        contents(*final(buffer)) == contents(*old(buffer)).subrange(0, at as int),
        contents(tail) == contents(*old(buffer)).subrange(
            at as int,
            contents(*old(buffer)).len() as int,
        ),
;

/// `Bytes::from(Vec<u8>)` takes over the vector; the buffer holds the
/// vector's bytes.
#[verifier::external_body]
pub(crate) fn from_vec(bytes: Vec<u8>) -> (buffer: Bytes)
    ensures
        contents(buffer) == bytes@,
{
    Bytes::from(bytes)
}

/// Dereferencing a `Bytes` gives the held bytes as a slice.
#[verifier::external_body]
pub(crate) fn as_slice(buffer: &Bytes) -> (slice: &[u8])
    ensures
        slice@ == contents(*buffer),
{
    &buffer[..]
}

} // verus!
