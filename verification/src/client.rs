//! The transport interface, and the bridge that hides a transport behind one
//! dynamically dispatched type.

use vstd::prelude::*;
use vstd::utf8::encode_utf8;
use std::sync::Arc;
use bytes::Bytes;
use crate::body::{buffered_events, Body};
use crate::buffer::contents;
use crate::error::Error;
use crate::message::{Request, Response};
use crate::source::FrameSource;

verus! {

/// Makes transports on demand, each for payloads of the canonical type.
pub trait HttpClientFactory {
    type Client: HttpClient<Body>;

    /// Whether `client` is one of the transports that this factory may make.
    /// A factory that says nothing of itself may make any.
    open spec fn makes(&self, client: Self::Client) -> bool {
        true
    }

    /// Makes a transport.
    fn create(&self) -> (client: Self::Client)
        ensures
            self.makes(client),
    ;
}

/// A transport: it takes a request with a payload of type `B` and gives a
/// response with a payload of its own type, or fails.
pub trait HttpClient<B> {
    type Body;

    /// Whether `outcome` is one of the answers that this transport may give
    /// to `request`. A transport that says nothing of itself may give any.
    open spec fn may_answer(
        &self,
        request: Request<B>,
        outcome: Result<Response<Self::Body>, Error>,
    ) -> bool {
        true
    }

    /// Sends `request` and returns what came of it.
    fn send(&self, request: Request<B>) -> (outcome: Result<Response<Self::Body>, Error>)
        ensures
            self.may_answer(request, outcome),
    ;

    /// This transport behind one dynamically dispatched type, owned by one
    /// holder. Every answer of the boxed client is an answer of this
    /// transport passed across the bridge: a response keeps its head and has
    /// its payload converted, a failure stays as it is.
    fn boxed(self) -> (client: BoxClient<B>) where
        Self: Sized + Send + Sync + 'static,
        B: 'static,
        Self::Body: Into<Body>,

        ensures
            forall|request: Request<B>, outcome: Result<Response<Body>, Error>|
                #[trigger] (*client).may_answer(request, outcome) ==> exists|
                    inner: Result<Response<Self::Body>, Error>,
                |
                    self.may_answer(request, inner) && bridged(inner, outcome),
    {
        let relay = move |request: Request<B>| -> (outcome: Result<Response<Body>, Error>)
            ensures
                exists|inner: Result<Response<Self::Body>, Error>|
                    self.may_answer(request, inner) && bridged(inner, outcome),
            {
                let inner = self.send(request);
                let outcome = normalize(inner);
                assert(self.may_answer(request, inner) && bridged(inner, outcome));
                outcome
            };
        return Box::new(Relay::new(relay));
    }

    /// This transport behind one dynamically dispatched type, shared by any
    /// number of holders. Every answer of the shared client is an answer of
    /// this transport passed across the bridge: a response keeps its head
    /// and has its payload converted, a failure stays as it is.
    fn shared(self) -> (client: SharedClient<B>) where
        Self: Sized + Send + Sync + 'static,
        B: 'static,
        Self::Body: Into<Body>,

        ensures
            forall|request: Request<B>, outcome: Result<Response<Body>, Error>|
                #[trigger] (**client).may_answer(request, outcome) ==> exists|
                    inner: Result<Response<Self::Body>, Error>,
                |
                    self.may_answer(request, inner) && bridged(inner, outcome),
    {
        let relay = move |request: Request<B>| -> (outcome: Result<Response<Body>, Error>)
            ensures
                exists|inner: Result<Response<Self::Body>, Error>|
                    self.may_answer(request, inner) && bridged(inner, outcome),
            {
                let inner = self.send(request);
                let outcome = normalize(inner);
                assert(self.may_answer(request, inner) && bridged(inner, outcome));
                outcome
            };
        let boxed: BoxClient<B> = Box::new(Relay::new(relay));
        let client = Arc::new(boxed);
        assert(*client == boxed);
        client
    }
}

/// A transport as one dynamically dispatched type: whatever stands behind
/// it, its responses carry the canonical payload.
pub trait DynamicClient<B>: Send + Sync {
    /// Whether `outcome` is one of the answers that this transport may give
    /// to `request`. A transport that says nothing of itself may give any.
    open spec fn may_answer(
        &self,
        request: Request<B>,
        outcome: Result<Response<Body>, Error>,
    ) -> bool {
        true
    }

    /// Sends `request` and returns what came of it.
    fn send(&self, request: Request<B>) -> (outcome: Result<Response<Body>, Error>)
        ensures
            self.may_answer(request, outcome),
    ;
}

pub type BoxClient<B> = Box<dyn DynamicClient<B>>;

pub type SharedClient<B> = Arc<BoxClient<B>>;

/// A transport given as a function from request to answer. Inside
/// `HttpClient` the bridge cannot be named, because the bridge is defined in
/// terms of that trait; there a transport is put behind the dynamically
/// dispatched type as the function that sends through it and passes the
/// answer across.
struct Relay<F, B> where F: Fn(Request<B>) -> Result<Response<Body>, Error> {
    /// The function that answers.
    relay: F,
    /// Stands for the type of payload that the function takes.
    payload: Ghost<Option<B>>,
}

impl<F, B> Relay<F, B> where F: Fn(Request<B>) -> Result<Response<Body>, Error> {
    /// The function can be called with every request.
    #[verifier::type_invariant]
    spec fn takes_every_request(&self) -> bool {
        forall|request: Request<B>| call_requires(self.relay, (request,))
    }

    /// A transport that answers as `relay` does.
    fn new(relay: F) -> (transport: Relay<F, B>) where F: Send + Sync
        requires
            forall|request: Request<B>| call_requires(relay, (request,)),
        ensures
            forall|request: Request<B>, outcome: Result<Response<Body>, Error>|
                #[trigger] transport.may_answer(request, outcome) == call_ensures(
                    relay,
                    (request,),
                    outcome,
                ),
    {
        Relay { relay, payload: Ghost(None) }
    }
}

impl<F, B> DynamicClient<B> for Relay<F, B> where
    F: Fn(Request<B>) -> Result<Response<Body>, Error> + Send + Sync,
 {
    /// The answers are those that the function may return.
    closed spec fn may_answer(
        &self,
        request: Request<B>,
        outcome: Result<Response<Body>, Error>,
    ) -> bool {
        call_ensures(self.relay, (request,), outcome)
    }

    fn send(&self, request: Request<B>) -> (outcome: Result<Response<Body>, Error>)
    {
        proof {
            use_type_invariant(self);
        }
        (self.relay)(request)
    }
}

/// `Arc::clone` makes another pointer to the same value: the clone holds
/// what the pointer it was made from holds.
#[verifier::external_body]
pub(crate) fn share_again<B>(client: &SharedClient<B>) -> (again: SharedClient<B>)
    ensures
        again == *client,
{
    Arc::clone(client)
}

/// `From<T> for T`, the conversion of a value into its own type, returns the
/// value unchanged.
pub assume_specification<V>[ <V as core::convert::From<V>>::from ](value: V) -> (same: V)
    ensures
        same == value,
;

/// Whether `outcome` is an answer of `transport` to `request`, passed across
/// the bridge.
pub open spec fn bridge_answers<T: HttpClient<B>, B>(
    transport: T,
    request: Request<B>,
    outcome: Result<Response<Body>, Error>,
) -> bool where T::Body: Into<Body> {
    exists|inner: Result<Response<T::Body>, Error>|
        transport.may_answer(request, inner) && bridged(inner, outcome)
}

/// What the bridge makes of a transport's answer: a response keeps its head
/// and has its payload converted to the canonical type; a failure stays as
/// it is.
pub open spec fn bridged<R: Into<Body>>(
    inner: Result<Response<R>, Error>,
    outcome: Result<Response<Body>, Error>,
) -> bool {
    match inner {
        Ok(response) => {
            &&& outcome is Ok
            &&& outcome->Ok_0.parts == response.parts
            &&& call_ensures(<R as Into<Body>>::into, (response.body,), outcome->Ok_0.body)
        },
        Err(error) => outcome == Err::<Response<Body>, Error>(error),
    }
}

/// Passes a transport's answer across the bridge.
pub fn normalize<R: Into<Body>>(inner: Result<Response<R>, Error>) -> (outcome: Result<
    Response<Body>,
    Error,
>)
    ensures
        bridged(inner, outcome),
{
    match inner {
        Ok(response) => {
            let (parts, body) = response.into_parts();
            Ok(Response::from_parts(parts, body.into()))
        },
        Err(error) => Err(error),
    }
}

/// The bridge itself: it holds a transport and answers as that transport
/// does, with the payload normalized.
pub struct BoxedClient<T> {
    client: T,
}

impl<T> BoxedClient<T> {
    /// The transport behind the bridge.
    pub closed spec fn transport(&self) -> T {
        self.client
    }

    /// The bridge in front of `client`.
    pub fn new(client: T) -> (bridge: BoxedClient<T>)
        ensures
            bridge.transport() == client,
    {
        BoxedClient { client }
    }
}

impl<T, B> DynamicClient<B> for BoxedClient<T> where
    T: HttpClient<B> + Send + Sync,
    T::Body: Into<Body>,
 {
    /// The bridge gives the answers of its transport, each passed across:
    /// no others, and none less.
    open spec fn may_answer(
        &self,
        request: Request<B>,
        outcome: Result<Response<Body>, Error>,
    ) -> bool {
        bridge_answers(self.transport(), request, outcome)
    }

    fn send(&self, request: Request<B>) -> (outcome: Result<Response<Body>, Error>)
    {
        let inner = self.client.send(request);
        let outcome = normalize(inner);
        assert(self.transport().may_answer(request, inner) && bridged(inner, outcome));
        outcome
    }
}

impl<B: 'static> HttpClient<B> for Box<dyn DynamicClient<B>> {
    type Body = Body;

    open spec fn may_answer(
        &self,
        request: Request<B>,
        outcome: Result<Response<Body>, Error>,
    ) -> bool {
        (**self).may_answer(request, outcome)
    }

    fn send(&self, request: Request<B>) -> (outcome: Result<Response<Body>, Error>)
    {
        (**self).send(request)
    }
}

impl<B: 'static> HttpClient<B> for Arc<Box<dyn DynamicClient<B>>> {
    type Body = Body;

    open spec fn may_answer(
        &self,
        request: Request<B>,
        outcome: Result<Response<Body>, Error>,
    ) -> bool {
        (**self).may_answer(request, outcome)
    }

    fn send(&self, request: Request<B>) -> (outcome: Result<Response<Body>, Error>)
    {
        (**self).send(request)
    }
}

/// Puts `transport` behind the bridge and the bridge behind one dynamically
/// dispatched type, owned by one holder. The boxed client gives the answers
/// of `transport`, each passed across the bridge: no others, and none less.
pub fn bridge_boxed<T, B>(transport: T) -> (client: BoxClient<B>) where
    T: HttpClient<B> + Send + Sync + 'static,
    B: 'static,
    T::Body: Into<Body>,

    ensures
        forall|request: Request<B>, outcome: Result<Response<Body>, Error>|
            #[trigger] (*client).may_answer(request, outcome) == bridge_answers(
                transport,
                request,
                outcome,
            ),
{
    return Box::new(BoxedClient::new(transport));
}

/// Puts `transport` behind the bridge and the bridge behind one dynamically
/// dispatched type, shared by any number of holders. The shared client
/// gives the answers of `transport`, each passed across the bridge: no
/// others, and none less.
pub fn bridge_shared<T, B>(transport: T) -> (client: SharedClient<B>) where
    T: HttpClient<B> + Send + Sync + 'static,
    B: 'static,
    T::Body: Into<Body>,

    ensures
        forall|request: Request<B>, outcome: Result<Response<Body>, Error>|
            #[trigger] (**client).may_answer(request, outcome) == bridge_answers(
                transport,
                request,
                outcome,
            ),
{
    let boxed = bridge_boxed(transport);
    let client = Arc::new(boxed);
    assert(*client == boxed);
    client
}

/// Across the bridge a failure stays the same failure, and a response keeps
/// its head: status, version, headers and extensions.
pub proof fn lemma_bridge_keeps_head<R: Into<Body>>(
    inner: Result<Response<R>, Error>,
    outcome: Result<Response<Body>, Error>,
)
    requires
        bridged(inner, outcome),
    ensures
        inner is Ok <==> outcome is Ok,
        inner is Ok ==> outcome->Ok_0.parts == inner->Ok_0.parts,
        inner is Err ==> outcome->Err_0 == inner->Err_0,
{
}

/// Where the transport already answers with the canonical payload, the
/// bridge changes nothing at all.
pub proof fn lemma_bridge_keeps_canonical(
    inner: Result<Response<Body>, Error>,
    outcome: Result<Response<Body>, Error>,
)
    requires
        bridged(inner, outcome),
    ensures
        outcome == inner,
{
}

/// Where the transport answers with a vector of bytes, the payload behind
/// the bridge is buffered and holds those bytes.
pub proof fn lemma_bridge_keeps_vec(
    inner: Result<Response<Vec<u8>>, Error>,
    outcome: Result<Response<Body>, Error>,
)
    requires
        bridged(inner, outcome),
        inner is Ok,
    ensures
        outcome->Ok_0.body.is_reusable(),
        outcome->Ok_0.body.buffered() == inner->Ok_0.body@,
        outcome->Ok_0.body.pending() == buffered_events(inner->Ok_0.body@),
{
}

/// Where the transport answers with a byte buffer, the payload behind the
/// bridge is buffered and holds the buffer's bytes.
pub proof fn lemma_bridge_keeps_bytes(
    inner: Result<Response<Bytes>, Error>,
    outcome: Result<Response<Body>, Error>,
)
    requires
        bridged(inner, outcome),
        inner is Ok,
    ensures
        outcome->Ok_0.body.is_reusable(),
        outcome->Ok_0.body.buffered() == contents(inner->Ok_0.body),
        outcome->Ok_0.body.pending() == buffered_events(contents(inner->Ok_0.body)),
{
}

/// Where the transport answers with text, the payload behind the bridge is
/// buffered and holds the text's UTF-8 bytes.
pub proof fn lemma_bridge_keeps_text(
    inner: Result<Response<String>, Error>,
    outcome: Result<Response<Body>, Error>,
)
    requires
        bridged(inner, outcome),
        inner is Ok,
    ensures
        outcome->Ok_0.body.is_reusable(),
        outcome->Ok_0.body.buffered() == encode_utf8(inner->Ok_0.body@),
        outcome->Ok_0.body.pending() == buffered_events(encode_utf8(inner->Ok_0.body@)),
{
}

/// Sending through the bridge is sending through the transport: every
/// answer of the bridge is an answer of the transport passed across, and
/// every answer of the transport, passed across, is an answer of the
/// bridge.
pub proof fn lemma_bridge_answers_as_transport<T, B>(
    bridge: BoxedClient<T>,
    request: Request<B>,
    inner: Result<Response<T::Body>, Error>,
    outcome: Result<Response<Body>, Error>,
) where T: HttpClient<B> + Send + Sync, T::Body: Into<Body>
    ensures
        bridge.may_answer(request, outcome) ==> exists|from: Result<Response<T::Body>, Error>|
            bridge.transport().may_answer(request, from) && bridged(from, outcome),
        bridge.transport().may_answer(request, inner) && bridged(inner, outcome)
            ==> bridge.may_answer(request, outcome),
{
}

} // verus!
