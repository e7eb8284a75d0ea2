use vstd::prelude::*;

verus! {

/// The handler contract: a duplicable capability that reacts to a ping
/// addressed to some `Endpoint`.
///
/// A handler carries whatever private state its implementer chooses; the
/// contract exposes that state only through three specification members:
///
/// * [`ready`](Self::ready) says when the handler is prepared to react to a
///   given endpoint (most handlers: always);
/// * [`next`](Self::next) says what one reaction does to the private state —
///   a function of the state before the reaction and the endpoint alone, so
///   that a handler's behaviour is referentially transparent;
/// * [`reacted`](Self::reacted) says what one reaction establishes beyond the
///   state change (for a wrapped callable: the callable's own postcondition).
///
/// The operation itself returns nothing: success is the only outcome the
/// contract can report, and a reaction that would fail abruptly on some
/// endpoint must exclude that endpoint through [`ready`](Self::ready).
pub trait PingHandler<Endpoint>: Sized {
    /// When the handler is prepared to react to `endpoint`.
    spec fn ready(&self, endpoint: Endpoint) -> bool;

    /// The handler's private state after one reaction to `endpoint`.
    spec fn next(&self, endpoint: Endpoint) -> Self;

    /// What one reaction to `endpoint` establishes beyond the state change.
    spec fn reacted(&self, endpoint: Endpoint) -> bool;

    /// Produce an independent handler observably equivalent to the receiver:
    /// equal as a value, hence substitutable for it in every later reaction.
    /// Duplication is total — no implementation may fail here.
    fn duplicate(&self) -> (copy: Self)
        ensures
            copy == *self,
    ;

    /// React to a ping addressed to `endpoint`, running to completion before
    /// returning. The reaction changes the handler's private state exactly as
    /// [`next`](Self::next) describes and establishes
    /// [`reacted`](Self::reacted); it reports nothing else.
    fn handle(&mut self, endpoint: Endpoint)
        requires
            old(self).ready(endpoint),
        ensures
            *final(self) == old(self).next(endpoint),
            old(self).reacted(endpoint),
    ;
}

/// Law: a duplicate is substitutable for the handler it came from. Reacting
/// to equal endpoints leaves the duplicate and the source handler in equal
/// states, so no later invocation can tell the two apart.
pub fn duplicate_reacts_alike<Endpoint, H: PingHandler<Endpoint>>(
    handler: &mut H,
    endpoint: Endpoint,
    endpoint_again: Endpoint,
) -> (copy: H)
    requires
        old(handler).ready(endpoint),
        endpoint_again == endpoint,
    ensures
        *final(handler) == old(handler).next(endpoint),
        copy == *final(handler),
{
    let mut copy = handler.duplicate();
    handler.handle(endpoint);
    copy.handle(endpoint_again);
    copy
}

/// Law: the immediate variant runs each reaction to completion before
/// returning, so two invocations made in sequence on one thread compose in
/// that order — the first reaction is fully absorbed before the second
/// begins.
pub fn handle_twice_in_order<Endpoint, H: PingHandler<Endpoint>>(
    handler: &mut H,
    first: Endpoint,
    second: Endpoint,
)
    requires
        old(handler).ready(first),
        old(handler).next(first).ready(second),
    ensures
        *final(handler) == old(handler).next(first).next(second),
{
    handler.handle(first);
    handler.handle(second);
}

} // verus!
