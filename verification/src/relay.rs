use vstd::prelude::*;
use std::sync::mpsc::Sender;
use crate::channel::clone_sender;
use crate::channel::send_on;
use crate::command::Command;
use crate::delay::Delay;

verus! {

/// The handle producers hold: a pair of sending endpoints wired to one
/// dispatcher's event and command mailboxes.
///
/// Relays are lightweight, cloneable, and safe to move to other threads;
/// every clone feeds the same dispatcher. No operation blocks, and none
/// returns a result: when a mailbox is gone the value is silently dropped.
#[verifier::reject_recursive_types(E)]
pub struct Relay<E> {
    event_sender: Sender<E>,
    command_sender: Sender<Command<E>>,
}

impl<E> Relay<E> {
    pub closed spec fn spec_event_sender(self) -> Sender<E> {
        self.event_sender
    }

    pub closed spec fn spec_command_sender(self) -> Sender<Command<E>> {
        self.command_sender
    }

    pub fn new(event_sender: Sender<E>, command_sender: Sender<Command<E>>) -> (relay: Relay<E>)
        ensures
            relay.spec_event_sender() == event_sender,
            relay.spec_command_sender() == command_sender,
    {
        Relay { event_sender, command_sender }
    }

    /// Enqueue an event for processing on the dispatcher's next available
    /// tick. Fire-and-forget: if the dispatcher is gone the event is
    /// dropped.
    pub fn send(&self, event: E) {
        let _ = send_on(&self.event_sender, event);
    }

    /// Ask the dispatcher to hold the event back until at least `delay` of
    /// loop-observed time has passed. Fire-and-forget like `send`.
    pub fn schedule(&self, event: E, delay: Delay) {
        let _ = send_on(&self.command_sender, Command::Schedule(event, delay));
    }

    /// Ask the dispatcher to end its loop once the tick in flight is done.
    /// Fire-and-forget like `send`.
    pub fn stop(&self) {
        let _ = send_on(&self.command_sender, Command::Stop);
    }
}

impl<E> Clone for Relay<E> {
    /// An independent relay wired to the same two mailboxes.
    fn clone(&self) -> (relay: Self) {
        Relay {
            event_sender: clone_sender(&self.event_sender),
            command_sender: clone_sender(&self.command_sender),
        }
    }
}

} // verus!
