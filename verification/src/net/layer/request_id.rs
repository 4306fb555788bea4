//! Request ids: each request that passes the request id layer is given the
//! next number of a counter shared by the layer and all its services.
use vstd::prelude::*;
use std::sync::Arc;
use std::sync::atomic::AtomicU64;
use std::sync::atomic::Ordering;

verus! {

/// The id given to one request.
pub struct RequestId {
    id: u64,
}

impl RequestId {
    /// The number of this request.
    pub closed spec fn value(&self) -> u64 {
        self.id
    }

    /// A request id with the number `id`.
    pub fn new(id: u64) -> (r: Self)
        ensures
            r.value() == id,
    {
        RequestId { id }
    }

    /// The number of this request.
    pub fn id(&self) -> (r: &u64)
        ensures
            *r == self.value(),
    {
        &self.id
    }
}

/// A service that gives each request it handles the next request id.
pub struct RIDService<S> {
    pub inner: S,
    pub counter: Arc<AtomicU64>,
}

impl<S> RIDService<S> {
    /// A service around `inner` that takes ids from `counter`.
    pub fn new(inner: S, counter: Arc<AtomicU64>) -> (r: Self)
        ensures
            r.inner == inner,
            r.counter == counter,
    {
        RIDService { inner, counter }
    }

    /// Takes the next id from the shared counter. Other services share the
    /// counter, so nothing is known of the number taken.
    pub fn next_id(&self) -> RequestId {
        let id = self.counter.fetch_add(1, Ordering::SeqCst);
        RequestId { id }
    }
}

/// The layer that wraps services so that each request gets an id; the first
/// id given is 1.
pub struct RIDLayer {
    pub counter: Arc<AtomicU64>,
}

impl RIDLayer {
    /// A layer whose counter starts at 1.
    pub fn new() -> Self {
        RIDLayer { counter: Arc::new(AtomicU64::new(1)) }
    }

    /// Wraps `service`; the service shares this layer's counter.
    pub fn layer<S>(&self, service: S) -> (r: RIDService<S>)
        ensures
            r.inner == service,
            r.counter == self.counter,
    {
        RIDService::new(service, self.counter.clone())
    }
}

} // verus!
