//! Changing the payload of a request while its head stays as it is.

use vstd::prelude::*;
use crate::message::Request;

mod internal;

verus! {

/// What a request offers beyond its own methods.
pub trait RequestExt<B>: internal::Internal {
    /// The head of the request.
    spec fn head(&self) -> http::request::Parts;

    /// The payload of the request.
    spec fn payload(&self) -> B;

    /// The request with the same head and with `func` applied to its
    /// payload.
    fn map_body<T: FnOnce(B) -> U, U>(self, func: T) -> (mapped: Request<U>)
        requires
            call_requires(func, (self.payload(),)),
        ensures
            mapped.parts == self.head(),
            call_ensures(func, (self.payload(),), mapped.body),
    ;
}

impl<B> RequestExt<B> for Request<B> {
    open spec fn head(&self) -> http::request::Parts {
        self.parts
    }

    open spec fn payload(&self) -> B {
        self.body
    }

    fn map_body<T: FnOnce(B) -> U, U>(self, func: T) -> (mapped: Request<U>)
    {
        let (parts, body) = self.into_parts();
        Request::from_parts(parts, func(body))
    }
}

} // verus!
