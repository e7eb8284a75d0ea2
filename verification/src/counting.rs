use vstd::prelude::*;

use crate::handler::PingHandler;

verus! {

/// A handler that reacts to a ping by incrementing a private counter, one
/// concrete inhabitant of the contract. Each duplicate starts from the count
/// the receiver had and counts independently from there.
pub struct CountingHandler {
    /// How many pings this handler has reacted to.
    pub count: u64,
}

impl CountingHandler {
    /// A counting handler that has reacted to nothing yet.
    pub fn new() -> (handler: CountingHandler)
        ensures
            handler.count == 0,
    {
        CountingHandler { count: 0 }
    }
}

impl<Endpoint> PingHandler<Endpoint> for CountingHandler {
    /// Prepared whenever one more reaction still fits in the counter.
    open spec fn ready(&self, endpoint: Endpoint) -> bool {
        self.count < u64::MAX
    }

    /// One reaction counts the ping, whatever its endpoint.
    open spec fn next(&self, endpoint: Endpoint) -> Self {
        CountingHandler { count: (self.count + 1) as u64 }
    }

    /// Counting establishes nothing beyond the state change.
    open spec fn reacted(&self, endpoint: Endpoint) -> bool {
        true
    }

    fn duplicate(&self) -> (copy: Self) {
        CountingHandler { count: self.count }
    }

    fn handle(&mut self, endpoint: Endpoint) {
        self.count = self.count + 1;
    }
}

} // verus!
