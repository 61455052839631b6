//! An in-process event dispatch engine: a single consumer loop owns a piece
//! of mutable application state (the context), and cloneable, thread-safe
//! relay handles let producer threads enqueue events, schedule delayed
//! events, or request shutdown, without ever touching the context directly.

mod channel;
mod command;
mod delay;
mod dispatcher;
mod event;
mod relay;
mod scheduler;

pub use channel::Channel;
pub use channel::RecvAttempt;
pub use command::Command;
pub use delay::decreased_by_all;
pub use delay::lemma_delay_lower_bound;
pub use delay::total_elapsed;
pub use delay::Delay;
pub use dispatcher::Dispatcher;
pub use event::Event;
pub use relay::Relay;
pub use scheduler::advanced_by_all;
pub use scheduler::drain_ready;
pub use scheduler::lemma_entry_delay_lower_bound;
pub use scheduler::lemma_ready_fifo;
pub use scheduler::lemma_scheduler_conservation;
pub use scheduler::ready_events;
pub use scheduler::still_pending;
pub use scheduler::ScheduledEvent;
pub use scheduler::DEFAULT_SCHEDULER_PRECISION;
