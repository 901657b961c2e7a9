use vstd::prelude::*;
use crate::message::Response;

verus! {

/// Keeps `ResponseExt` closed: only responses have it.
pub trait Internal {

}

impl<B> Internal for Response<B> {

}

} // verus!
