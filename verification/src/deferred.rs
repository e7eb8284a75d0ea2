use vstd::prelude::*;

use crate::handler::PingHandler;

verus! {

/// The suspendable variant's result shape: a reaction that has been
/// requested but not necessarily performed yet, as a first-class value. The
/// caller owns it outright — it borrows nothing from the requesting frame —
/// and must drive it to its terminal state to observe the reaction happen.
pub enum DeferredPing<H, Endpoint> {
    /// The reaction to `endpoint` is still owed.
    Pending { handler: H, endpoint: Endpoint },
    /// The reaction has run; `handler` is the handler that performed it.
    Complete { handler: H },
}

/// The suspendable variant of the handler contract, identical to
/// [`PingHandler::handle`] apart from the result shape: instead of reacting
/// before returning, it hands back a deferred computation that will perform
/// the reaction when driven.
pub fn handle_deferred<Endpoint, H: PingHandler<Endpoint>>(
    handler: H,
    endpoint: Endpoint,
) -> (deferred: DeferredPing<H, Endpoint>)
    ensures
        deferred == (DeferredPing::Pending { handler, endpoint }),
{
    DeferredPing::Pending { handler, endpoint }
}

impl<Endpoint, H: PingHandler<Endpoint>> DeferredPing<H, Endpoint> {
    /// A deferred computation is well formed when the handler it holds is
    /// prepared for the reaction it still owes.
    pub open spec fn wf(self) -> bool {
        match self {
            DeferredPing::Pending { handler, endpoint } => handler.ready(endpoint),
            DeferredPing::Complete { handler } => true,
        }
    }

    /// Whether the computation has reached its terminal state.
    pub open spec fn is_complete(self) -> bool {
        self is Complete
    }

    /// The handler as it stands once the computation completes: if the
    /// reaction is still owed, the holder after performing it.
    pub open spec fn outcome(self) -> H {
        match self {
            DeferredPing::Pending { handler, endpoint } => handler.next(endpoint),
            DeferredPing::Complete { handler } => handler,
        }
    }

    /// Whether the computation has reached its terminal state.
    pub fn is_done(&self) -> (done: bool)
        ensures
            done == self.is_complete(),
    {
        match self {
            DeferredPing::Pending { .. } => false,
            DeferredPing::Complete { .. } => true,
        }
    }

    /// Advance the computation: the owed reaction, if any, runs here, and the
    /// terminal state is reached. A reaction suspends zero times in this
    /// model, so one poll always completes; polling a complete computation
    /// performs nothing further.
    pub fn poll(self) -> (polled: Self)
        requires
            self.wf(),
        ensures
            polled.is_complete(),
            polled.outcome() == self.outcome(),
            polled.wf(),
    {
        match self {
            DeferredPing::Pending { mut handler, endpoint } => {
                handler.handle(endpoint);
                DeferredPing::Complete { handler }
            },
            DeferredPing::Complete { handler } => DeferredPing::Complete { handler },
        }
    }

    /// Drive the computation to completion: the owed reaction, if any, runs
    /// here, and the handler that performed it is handed back. Driving always
    /// terminates, so a well-formed deferred reaction always completes.
    pub fn drive(self) -> (after: H)
        requires
            self.wf(),
        ensures
            after == self.outcome(),
    {
        match self {
            DeferredPing::Pending { mut handler, endpoint } => {
                handler.handle(endpoint);
                handler
            },
            DeferredPing::Complete { handler } => handler,
        }
    }
}

/// Law: deferral changes when a reaction runs, not what it does. Requesting
/// a reaction through the suspendable variant and driving the result performs
/// exactly the reaction the immediate variant would have performed.
pub fn defer_then_drive<Endpoint, H: PingHandler<Endpoint>>(
    handler: H,
    endpoint: Endpoint,
) -> (after: H)
    requires
        handler.ready(endpoint),
    ensures
        after == handler.next(endpoint),
{
    let deferred = handle_deferred(handler, endpoint);
    deferred.drive()
}

/// Law: separate deferred reactions impose no order on one another. Whichever
/// is driven first, each completes to the outcome it alone determines, so a
/// caller dispatching them concurrently may observe completions in any order.
pub fn drive_in_either_order<Endpoint, H: PingHandler<Endpoint>>(
    first: DeferredPing<H, Endpoint>,
    second: DeferredPing<H, Endpoint>,
    first_first: bool,
) -> (after: (H, H))
    requires
        first.wf(),
        second.wf(),
    ensures
        after.0 == first.outcome(),
        after.1 == second.outcome(),
{
    if first_first {
        let a = first.drive();
        let b = second.drive();
        (a, b)
    } else {
        let b = second.drive();
        let a = first.drive();
        (a, b)
    }
}

} // verus!
