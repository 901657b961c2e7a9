//! One interface for sending HTTP requests and reading HTTP responses,
//! whatever transport does the work.

pub mod body;
pub mod buffer;
pub mod client;
pub mod error;
pub mod frame;
pub mod impls;
pub mod message;
pub mod request_ext;
pub mod response_ext;
pub mod service;
pub mod source;
pub mod text;

use vstd::prelude::*;
use std::sync::Arc;

pub use bytes;
pub use http;
pub use http_body;

pub use crate::body::Body;
pub use crate::client::{
    BoxClient, BoxedClient, DynamicClient, HttpClient, HttpClientFactory, SharedClient,
};
use crate::client::{bridge_answers, bridge_shared, share_again};
pub use crate::error::Error;
pub use crate::impls::Reqwest;
pub use crate::message::{Request, Response};
pub use crate::response_ext::ResponseExt;

verus! {

/// A handle on one transport, hidden behind the bridge. It can be cloned and
/// shared; every clone talks to the same transport.
pub struct Client {
    inner: SharedClient<Body>,
}

impl Clone for Client {
    /// Another handle on the same transport.
    fn clone(&self) -> (other: Client)
        ensures
            forall|request: Request<Body>, outcome: Result<Response<Body>, Error>|
                other.may_answer(request, outcome) == self.may_answer(request, outcome),
    {
        Client { inner: share_again(&self.inner) }
    }
}

impl Client {
    /// Whether `outcome` is one of the answers that the transport behind
    /// this handle may give to `request`.
    pub closed spec fn may_answer(
        &self,
        request: Request<Body>,
        outcome: Result<Response<Body>, Error>,
    ) -> bool {
        self.inner.may_answer(request, outcome)
    }

    /// Whether this handle stands in front of `transport`: it gives the
    /// answers of `transport`, each passed across the bridge, and no others.
    pub open spec fn handles<T: HttpClient<Body>>(&self, transport: T) -> bool where
        T::Body: Into<Body>,
     {
        forall|request: Request<Body>, outcome: Result<Response<Body>, Error>|
            #[trigger] self.may_answer(request, outcome) == bridge_answers(
                transport,
                request,
                outcome,
            )
    }

    /// A handle on `client`, which is put behind the bridge and shared.
    pub fn new<T: HttpClient<Body> + Send + Sync + 'static>(client: T) -> (handle: Client) where
        T::Body: Into<Body>,

        ensures
            handle.handles(client),
    {
        Client { inner: bridge_shared(client) }
    }

    /// Converts the payload of `req` to the canonical type, sends the
    /// request to the transport and returns its answer.
    pub fn request<B: Into<Body>>(&self, req: Request<B>) -> (outcome: Result<
        Response<Body>,
        Error,
    >)
        ensures
            exists|sent: Request<Body>|
                {
                    &&& sent.parts == req.parts
                    &&& call_ensures(<B as Into<Body>>::into, (req.body,), sent.body)
                    &&& self.may_answer(sent, outcome)
                },
    {
        let (parts, body) = req.into_parts();
        let sent = Request::from_parts(parts, body.into());
        let outcome = self.inner.send(sent);
        assert(sent.parts == req.parts && call_ensures(
            <B as Into<Body>>::into,
            (req.body,),
            sent.body,
        ) && self.may_answer(sent, outcome));
        outcome
    }
}

/// Makes handles on demand.
pub trait ClientFactory: Send + Sync {
    /// Whether `client` is one of the handles that this factory may make. A
    /// factory that says nothing of itself may make any.
    open spec fn makes(&self, client: Client) -> bool {
        true
    }

    /// Makes a handle.
    fn create(&self) -> (client: Client)
        ensures
            self.makes(client),
    ;
}

impl ClientFactory for Box<dyn ClientFactory> {
    /// A boxed factory makes what the factory in the box makes.
    open spec fn makes(&self, client: Client) -> bool {
        (**self).makes(client)
    }

    fn create(&self) -> (client: Client) {
        (**self).create()
    }
}

impl ClientFactory for Arc<Box<dyn ClientFactory>> {
    /// A shared factory makes what the factory it points to makes.
    open spec fn makes(&self, client: Client) -> bool {
        (**self).makes(client)
    }

    fn create(&self) -> (client: Client) {
        (**self).create()
    }
}

/// Whether `client` is a handle on one of the transports that `factory` may
/// make.
pub open spec fn made_by<T: HttpClientFactory>(factory: T, client: Client) -> bool where
    <T::Client as HttpClient<Body>>::Body: Into<Body>,
 {
    exists|transport: T::Client| factory.makes(transport) && client.handles(transport)
}

struct BoxedClientFactory<T>(T);

impl<T> ClientFactory for BoxedClientFactory<T> where
    T: HttpClientFactory + Send + Sync,
    T::Client: Send + Sync + 'static,
    <T::Client as HttpClient<Body>>::Body: Into<Body>,
 {
    /// Every handle made is a handle on a transport that the factory inside
    /// may make.
    closed spec fn makes(&self, client: Client) -> bool {
        made_by(self.0, client)
    }

    fn create(&self) -> (client: Client) {
        let transport = self.0.create();
        let client = Client::new(transport);
        assert(self.0.makes(transport) && client.handles(transport));
        client
    }
}

/// `factory` behind one dynamically dispatched type, owned by one holder.
/// The boxed factory makes handles on the transports that `factory` makes,
/// and no others.
pub fn factory_box<T>(factory: T) -> (boxed: BoxClientFactory) where
    T: HttpClientFactory + Send + Sync + 'static,
    T::Client: Send + Sync + 'static,
    <T::Client as HttpClient<Body>>::Body: Into<Body>,

    ensures
        forall|client: Client| #[trigger] (*boxed).makes(client) == made_by(factory, client),
{
    return Box::new(BoxedClientFactory(factory));
}

/// `factory` behind one dynamically dispatched type, shared by any number
/// of holders. The shared factory makes handles on the transports that
/// `factory` makes, and no others.
pub fn factory_arc<T>(factory: T) -> (shared: SharedClientFactory) where
    T: HttpClientFactory + Send + Sync + 'static,
    T::Client: Send + Sync + 'static,
    <T::Client as HttpClient<Body>>::Body: Into<Body>,

    ensures
        forall|client: Client| #[trigger] (**shared).makes(client) == made_by(factory, client),
{
    let boxed = factory_box(factory);
    let shared = Arc::new(boxed);
    assert(*shared == boxed);
    shared
}

pub type BoxClientFactory = Box<dyn ClientFactory>;

pub type SharedClientFactory = Arc<BoxClientFactory>;

} // verus!
