/// The function adapter: any duplicable callable satisfies the contract.
pub mod adapter;
/// A concrete handler that counts the pings it reacts to.
pub mod counting;
/// The suspendable variant: reactions as deferred computations.
pub mod deferred;
/// The handler contract and its general laws.
pub mod handler;

pub use adapter::FnHandler;
pub use counting::CountingHandler;
pub use deferred::DeferredPing;
pub use handler::PingHandler;
