use vstd::prelude::*;
use crate::relay::Relay;

verus! {

/// A unit of work for the dispatcher.
///
/// The dispatcher's thread calls `process` at most once per enqueued value,
/// consuming it, with a relay wired to the same dispatcher (to enqueue
/// further work) and an exclusive reference to the context. Implementers
/// decide what processing means; the dispatcher promises nothing about the
/// context afterwards.
pub trait Event<Context>: Sized {
    fn process(self, relay: &Relay<Self>, context: &mut Context);
}

} // verus!
