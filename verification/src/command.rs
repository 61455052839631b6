use vstd::prelude::*;
use crate::delay::Delay;

verus! {

/// A control message for the dispatcher: either stop the loop, or hold an
/// event back until at least the given delay of loop-observed time has
/// passed.
pub enum Command<E> {
    Stop,
    Schedule(E, Delay),
}

} // verus!
