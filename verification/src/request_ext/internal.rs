use vstd::prelude::*;
use crate::message::Request;

verus! {

/// Keeps `RequestExt` closed: only requests have it.
pub trait Internal {

}

impl<B> Internal for Request<B> {

}

} // verus!
