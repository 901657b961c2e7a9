//! A transport as a service: a handle that is always ready and forwards
//! each call to the transport it shares.

use vstd::prelude::*;
use std::sync::Arc;
use crate::client::HttpClient;
use crate::error::Error;
use crate::message::{Request, Response};

verus! {

/// A service in front of one shared transport.
pub struct ReggieService<T> {
    client: Arc<T>,
}

impl<T> ReggieService<T> {
    /// The transport that the service forwards to.
    pub closed spec fn client(&self) -> T {
        *self.client
    }

    /// A service in front of `client`.
    pub fn new(client: T) -> (service: ReggieService<T>)
        ensures
            service.client() == client,
    {
        ReggieService { client: Arc::new(client) }
    }

    /// Whether the service can take a call: it always can.
    pub fn poll_ready(&self) -> (ready: Result<(), Error>)
        ensures
            ready is Ok,
    {
        Ok(())
    }

    /// Hands `req` to the transport and returns its answer.
    pub fn call<B>(&self, req: Request<B>) -> (outcome: Result<Response<T::Body>, Error>) where
        T: HttpClient<B>,

        ensures
            self.client().may_answer(req, outcome),
    {
        self.client.send(req)
    }
}

} // verus!
