use vstd::prelude::*;
use crate::channel::Channel;
use crate::channel::RecvAttempt;
use crate::channel::clone_sender;
use crate::channel::send_on;
use crate::channel::try_recv_on;
use crate::command::Command;
use crate::delay::Delay;
use crate::event::Event;
use crate::relay::Relay;
use crate::scheduler::DEFAULT_SCHEDULER_PRECISION;
use crate::scheduler::ScheduledEvent;
use crate::scheduler::drain_ready;
use crate::scheduler::still_pending;

verus! {

/// The single consumer: owns the context, the receiving end of both
/// mailboxes, a relay template for `create_relay`, and the entries whose
/// delay is still burning down.
///
/// One thread drives it through ticks; each tick drains commands, advances
/// the pending entries by the observed elapsed time and forwards the ready
/// ones to the event mailbox, then drains and processes events. The context
/// is only ever touched from inside `Event::process` calls made here.
#[verifier::reject_recursive_types(Context)]
#[verifier::reject_recursive_types(E)]
pub struct Dispatcher<Context, E> {
    event_channel: Channel<E>,
    command_channel: Channel<Command<E>>,
    relay: Relay<E>,
    context: Context,
    running: bool,
    scheduled_events: Vec<ScheduledEvent<E>>,
    scheduling_precision: Delay,
}

impl<Context, E: Event<Context>> Dispatcher<Context, E> {
    /// Whether the loop is live: false before `start`, false again for good
    /// once a stop was processed or a mailbox reported disconnection.
    pub closed spec fn spec_running(self) -> bool {
        self.running
    }

    /// The entries scheduled and not yet ready, oldest first.
    pub closed spec fn spec_pending(self) -> Seq<ScheduledEvent<E>> {
        self.scheduled_events@
    }

    /// The tick interval and per-tick time budget.
    pub closed spec fn spec_precision(self) -> Delay {
        self.scheduling_precision
    }

    /// The context as the events processed so far have left it.
    pub closed spec fn spec_context(self) -> Context {
        self.context
    }

    pub fn new(context: Context) -> (dispatcher: Dispatcher<Context, E>)
        ensures
            !dispatcher.spec_running(),
            dispatcher.spec_pending() == Seq::<ScheduledEvent<E>>::empty(),
            dispatcher.spec_precision().nanos == DEFAULT_SCHEDULER_PRECISION * 1_000_000,
            dispatcher.spec_context() == context,
    {
        let event_channel = Channel::<E>::new();
        let command_channel = Channel::<Command<E>>::new();
        let relay = Relay::new(
            clone_sender(event_channel.get_sender()),
            clone_sender(command_channel.get_sender()),
        );
        Dispatcher {
            event_channel,
            command_channel,
            relay,
            context,
            running: false,
            scheduled_events: Vec::new(),
            scheduling_precision: Delay::from_millis(DEFAULT_SCHEDULER_PRECISION),
        }
    }

    /// A fresh relay wired to this dispatcher's two mailboxes.
    pub fn create_relay(&self) -> Relay<E> {
        self.relay.clone()
    }

    /// Enter the running state, as the loop does when it begins.
    pub fn start(&mut self)
        ensures
            final(self).spec_running(),
            final(self).spec_pending() == old(self).spec_pending(),
            final(self).spec_precision() == old(self).spec_precision(),
            final(self).spec_context() == old(self).spec_context(),
    {
        self.running = true;
    }

    pub fn is_running(&self) -> (r: bool)
        ensures
            r == self.spec_running(),
    {
        self.running
    }

    pub fn precision(&self) -> (r: Delay)
        ensures
            r == self.spec_precision(),
    {
        self.scheduling_precision
    }

    pub fn scheduled_count(&self) -> (r: usize)
        ensures
            r == self.spec_pending().len(),
    {
        self.scheduled_events.len()
    }

    pub fn context(&self) -> (r: &Context)
        ensures
            *r == self.spec_context(),
    {
        &self.context
    }

    /// Give the context back once the loop is done with it.
    pub fn into_context(self) -> (context: Context)
        ensures
            context == self.spec_context(),
    {
        self.context
    }

    /// The loop's throttle decision: with less than one precision interval
    /// elapsed since the last tick boundary, the thread is to sleep for the
    /// remainder instead of doing any work.
    pub fn sleep_time(&self, elapsed: Delay) -> (r: Option<Delay>)
        ensures
            r == if elapsed.nanos < self.spec_precision().nanos {
                Some(self.spec_precision().decreased_by(elapsed))
            } else {
                None::<Delay>
            },
    {
        if elapsed.nanos < self.scheduling_precision.nanos {
            Some(self.scheduling_precision.saturating_sub(elapsed))
        } else {
            None
        }
    }

    /// Apply one control message: stop the loop, or append a scheduler
    /// entry, in arrival order.
    pub fn process_command(&mut self, command: Command<E>)
        ensures
            final(self).spec_precision() == old(self).spec_precision(),
            final(self).spec_context() == old(self).spec_context(),
            match command {
                Command::Stop => !final(self).spec_running() && final(self).spec_pending()
                    == old(self).spec_pending(),
                Command::Schedule(event, delay) => final(self).spec_running() == old(self).spec_running() && final(self).spec_pending() == old(self).spec_pending().push(
                    ScheduledEvent { event, delay },
                ),
            },
    {
        match command {
            Command::Stop => {
                self.running = false;
            },
            Command::Schedule(event, delay) => {
                self.scheduled_events.push(ScheduledEvent::new(event, delay));
            },
        }
    }

    /// Apply the outcome of one look at the command mailbox: a command is
    /// processed, an empty mailbox changes nothing, and a disconnected one
    /// is an implicit stop. True exactly when a command was processed.
    pub fn process_command_attempt(&mut self, attempt: RecvAttempt<Command<E>>) -> (r: bool)
        ensures
            final(self).spec_precision() == old(self).spec_precision(),
            final(self).spec_context() == old(self).spec_context(),
            final(self).spec_running() ==> old(self).spec_running(),
            match attempt {
                RecvAttempt::Received(command) => r && match command {
                    Command::Stop => !final(self).spec_running() && final(self).spec_pending()
                        == old(self).spec_pending(),
                    Command::Schedule(event, delay) => final(self).spec_running() == old(self).spec_running() && final(self).spec_pending() == old(self).spec_pending().push(ScheduledEvent { event, delay }),
                },
                RecvAttempt::Empty => !r && *final(self) == *old(self),
                RecvAttempt::Disconnected => !r && !final(self).spec_running() && final(self).spec_pending() == old(self).spec_pending(),
            },
    {
        match attempt {
            RecvAttempt::Received(command) => {
                self.process_command(command);
                true
            },
            RecvAttempt::Empty => false,
            RecvAttempt::Disconnected => {
                self.running = false;
                false
            },
        }
    }

    /// One look at the command mailbox; true exactly when a command was
    /// there and was processed.
    pub fn handle_commands(&mut self) -> (r: bool)
        ensures
            final(self).spec_precision() == old(self).spec_precision(),
            final(self).spec_context() == old(self).spec_context(),
            final(self).spec_running() ==> old(self).spec_running(),
            !r ==> final(self).spec_pending() == old(self).spec_pending(),
            r ==> (!final(self).spec_running() && final(self).spec_pending() == old(self).spec_pending()) || (final(self).spec_running() == old(self).spec_running() && final(self).spec_pending().len() == old(self).spec_pending().len() + 1 && final(self).spec_pending().take(old(self).spec_pending().len() as int) == old(self).spec_pending()),
    {
        let attempt = try_recv_on(self.command_channel.get_receiver());
        self.process_command_attempt(attempt)
    }

    /// Advance every pending entry by the elapsed time the loop observed,
    /// and forward the entries that became ready — oldest first — to the
    /// event mailbox.
    ///
    /// `elapsed` is deliberately the duration since the previous tick
    /// boundary, quantized to the precision interval, not a fresh clock
    /// reading: an entry fires no earlier than the delay asked for, but
    /// possibly up to one interval late, and the quantization may drift.
    pub fn handle_scheduled_events(&mut self, elapsed: Delay)
        ensures
            final(self).spec_precision() == old(self).spec_precision(),
            final(self).spec_context() == old(self).spec_context(),
            final(self).spec_running() == old(self).spec_running(),
            final(self).spec_pending() == still_pending(old(self).spec_pending(), elapsed),
    {
        let mut ready = drain_ready(&mut self.scheduled_events, elapsed);
        while ready.len() > 0
            decreases ready@.len(),
        {
            let event = ready.remove(0);
            let _ = send_on(self.event_channel.get_sender(), event);
        }
    }

    /// Apply the outcome of one look at the event mailbox: a received event
    /// is processed — consumed by its own `process`, with a relay to this
    /// dispatcher and the context —, an empty mailbox changes nothing, and
    /// a disconnected one is an implicit stop. True exactly when an event
    /// was processed; only then may the context have changed.
    pub fn process_event_attempt(&mut self, attempt: RecvAttempt<E>) -> (r: bool)
        ensures
            final(self).spec_precision() == old(self).spec_precision(),
            final(self).spec_pending() == old(self).spec_pending(),
            final(self).spec_running() ==> old(self).spec_running(),
            match attempt {
                RecvAttempt::Received(event) => r && final(self).spec_running() == old(self).spec_running(),
                RecvAttempt::Empty => !r && *final(self) == *old(self),
                RecvAttempt::Disconnected => !r && !final(self).spec_running() && final(self).spec_context() == old(self).spec_context(),
            },
    {
        match attempt {
            RecvAttempt::Received(event) => {
                event.process(&self.relay, &mut self.context);
                true
            },
            RecvAttempt::Empty => false,
            RecvAttempt::Disconnected => {
                self.running = false;
                false
            },
        }
    }

    /// One look at the event mailbox; true exactly when an event was there
    /// and was processed.
    pub fn handle_events(&mut self) -> (r: bool)
        ensures
            final(self).spec_precision() == old(self).spec_precision(),
            final(self).spec_pending() == old(self).spec_pending(),
            final(self).spec_running() ==> old(self).spec_running(),
            r ==> final(self).spec_running() == old(self).spec_running(),
            !r ==> final(self).spec_context() == old(self).spec_context(),
    {
        let attempt = try_recv_on(self.event_channel.get_receiver());
        self.process_event_attempt(attempt)
    }

    /// One full tick of a running dispatcher, `elapsed` after the previous
    /// tick boundary: drain the command mailbox, advance the scheduler and
    /// forward what became ready, then drain and process events. A stopped
    /// dispatcher does nothing — entries and events still queued when the
    /// loop went down are dropped, not processed.
    ///
    /// Each drain phase is bounded by `budget`, a count of messages: the
    /// tick catches up on backlog without being starved by producers that
    /// keep sending. A loop that owns a clock may bound the phases by a
    /// time budget instead, by driving `handle_commands` and
    /// `handle_events` itself.
    pub fn tick(&mut self, elapsed: Delay, budget: usize)
        ensures
            final(self).spec_precision() == old(self).spec_precision(),
            final(self).spec_running() ==> old(self).spec_running(),
            !old(self).spec_running() ==> *final(self) == *old(self),
    {
        if !self.is_running() {
            return ;
        }
        let mut drained: usize = 0;
        while drained < budget
            invariant
                self.spec_precision() == old(self).spec_precision(),
                self.spec_running() ==> old(self).spec_running(),
            decreases budget - drained,
        {
            if !self.handle_commands() {
                break ;
            }
            drained = drained + 1;
        }
        self.handle_scheduled_events(elapsed);
        drained = 0;
        while drained < budget
            invariant
                self.spec_precision() == old(self).spec_precision(),
                self.spec_running() ==> old(self).spec_running(),
            decreases budget - drained,
        {
            if !self.handle_events() {
                break ;
            }
            drained = drained + 1;
        }
    }
}

} // verus!
