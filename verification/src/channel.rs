use vstd::prelude::*;
use std::sync::mpsc::Receiver;
use std::sync::mpsc::Sender;
use std::sync::mpsc::TryRecvError;

verus! {

#[verifier::external_type_specification]
#[verifier::external_body]
#[verifier::reject_recursive_types(T)]
pub struct ExSender<T>(Sender<T>);

#[verifier::external_type_specification]
#[verifier::external_body]
#[verifier::reject_recursive_types(T)]
pub struct ExReceiver<T>(Receiver<T>);

/// What one non-blocking look at the receiving end of a mailbox yields:
/// a queued value, nothing for the moment, or the news that every sender
/// is gone.
pub enum RecvAttempt<T> {
    Received(T),
    Empty,
    Disconnected,
}

/// Relies on std::sync::mpsc::channel: returns the two endpoints of a fresh
/// unbounded queue, the sender feeding the receiver.
#[verifier::external_body]
pub(crate) fn mpsc_pair<T>() -> (r: (Sender<T>, Receiver<T>)) {
    std::sync::mpsc::channel()
}

/// Relies on std::sync::mpsc::Sender::send: queues the value without
/// blocking; the result is true unless every receiver is gone, in which
/// case the value is dropped.
#[verifier::external_body]
pub(crate) fn send_on<T>(sender: &Sender<T>, value: T) -> (delivered: bool) {
    sender.send(value).is_ok()
}

/// Relies on std::sync::mpsc::Receiver::try_recv: returns the oldest queued
/// value if one is waiting, and otherwise reports without blocking whether
/// the queue is merely empty or disconnected.
#[verifier::external_body]
pub(crate) fn try_recv_on<T>(receiver: &Receiver<T>) -> (attempt: RecvAttempt<T>) {
    match receiver.try_recv() {
        Ok(value) => RecvAttempt::Received(value),
        Err(TryRecvError::Empty) => RecvAttempt::Empty,
        Err(TryRecvError::Disconnected) => RecvAttempt::Disconnected,
    }
}

/// Relies on std::sync::mpsc::Sender::clone: the clone feeds the same
/// receiver as the original.
#[verifier::external_body]
pub(crate) fn clone_sender<T>(sender: &Sender<T>) -> (r: Sender<T>) {
    sender.clone()
}

/// An unbounded multi-producer, single-consumer mailbox: one cloneable
/// sending endpoint and the one receiving endpoint, still paired up.
#[verifier::reject_recursive_types(T)]
pub struct Channel<T> {
    sender: Sender<T>,
    receiver: Receiver<T>,
}

impl<T> Channel<T> {
    pub closed spec fn spec_sender(self) -> Sender<T> {
        self.sender
    }

    pub closed spec fn spec_receiver(self) -> Receiver<T> {
        self.receiver
    }

    pub fn new() -> Channel<T> {
        let (sender, receiver) = mpsc_pair();
        Channel { sender, receiver }
    }

    pub fn get_sender(&self) -> (r: &Sender<T>)
        ensures
            *r == self.spec_sender(),
    {
        &self.sender
    }

    pub fn get_receiver(&self) -> (r: &Receiver<T>)
        ensures
            *r == self.spec_receiver(),
    {
        &self.receiver
    }
}

} // verus!
