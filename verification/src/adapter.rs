use vstd::prelude::*;

use crate::handler::PingHandler;

verus! {

/// The function adapter: any duplicable callable that consumes one endpoint
/// satisfies the handler contract once wrapped here. The wrapper is pure
/// forwarding — it holds the callable and nothing else, and invoking the
/// handler is invoking the callable.
pub struct FnHandler<F> {
    /// The wrapped callable.
    pub callable: F,
}

impl<F> FnHandler<F> {
    /// Wrap a callable as a handler.
    pub fn new(callable: F) -> (handler: FnHandler<F>)
        ensures
            handler.callable == callable,
    {
        FnHandler { callable }
    }
}

impl<Endpoint, F> PingHandler<Endpoint> for FnHandler<F> where F: Fn(Endpoint) + Copy {
    /// Prepared exactly where the wrapped callable may be invoked.
    open spec fn ready(&self, endpoint: Endpoint) -> bool {
        call_requires(self.callable, (endpoint,))
    }

    /// A bare callable carries no mutable state: reacting leaves the wrapper
    /// as it was.
    open spec fn next(&self, endpoint: Endpoint) -> Self {
        *self
    }

    /// A reaction establishes exactly the callable's own postcondition.
    open spec fn reacted(&self, endpoint: Endpoint) -> bool {
        call_ensures(self.callable, (endpoint,), ())
    }

    fn duplicate(&self) -> (copy: Self) {
        FnHandler { callable: self.callable }
    }

    fn handle(&mut self, endpoint: Endpoint) {
        (self.callable)(endpoint)
    }
}

/// Law: the adapter passes through to the callable it wraps. The handler is
/// prepared exactly where the callable may be called, a reaction guarantees
/// exactly what a direct call of the callable guarantees, and the wrapper
/// itself comes out unchanged — so invoking `handle` is observably invoking
/// the callable.
pub proof fn lemma_adapter_passes_through<Endpoint, F: Fn(Endpoint) + Copy>(
    handler: FnHandler<F>,
    endpoint: Endpoint,
)
    ensures
        handler.ready(endpoint) == call_requires(handler.callable, (endpoint,)),
        handler.reacted(endpoint) == call_ensures(handler.callable, (endpoint,), ()),
        handler.next(endpoint) == handler,
{
}

} // verus!
