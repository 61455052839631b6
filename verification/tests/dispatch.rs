use bifrost::Channel;
use bifrost::Command;
use bifrost::Delay;
use bifrost::Dispatcher;
use bifrost::Event;
use bifrost::RecvAttempt;
use bifrost::Relay;
use bifrost::ScheduledEvent;
use bifrost::drain_ready;
use bifrost::DEFAULT_SCHEDULER_PRECISION;

struct TestContext {
    counter: i64,
    log: Vec<i64>,
}

impl TestContext {
    fn new() -> TestContext {
        TestContext { counter: 0, log: Vec::new() }
    }
}

#[derive(Debug, PartialEq)]
enum TestEvent {
    Add(i64),
    StopLoop,
    ScheduleAdd(i64, u64),
}

impl Event<TestContext> for TestEvent {
    fn process(self, relay: &Relay<Self>, context: &mut TestContext) {
        match self {
            TestEvent::Add(value) => {
                context.counter += value;
                context.log.push(value);
            }
            TestEvent::StopLoop => relay.stop(),
            TestEvent::ScheduleAdd(value, millis) => {
                relay.schedule(TestEvent::Add(value), Delay::from_millis(millis));
            }
        }
    }
}

const TICK: u64 = DEFAULT_SCHEDULER_PRECISION;

#[test]
fn counter_reflects_every_send() {
    let mut dispatcher: Dispatcher<TestContext, TestEvent> = Dispatcher::new(TestContext::new());
    let relay = dispatcher.create_relay();
    let total: i64 = 100_000;
    let mut sent: i64 = 0;
    while sent < total {
        relay.send(TestEvent::Add(1));
        sent += 1;
    }
    dispatcher.start();
    dispatcher.tick(Delay::from_millis(TICK), 200_000);
    assert!(dispatcher.is_running());
    assert_eq!(dispatcher.context().counter, total);
    let context = dispatcher.into_context();
    assert_eq!(context.counter, total);
}

#[test]
fn relay_clone_sends_like_original() {
    let mut dispatcher: Dispatcher<TestContext, TestEvent> = Dispatcher::new(TestContext::new());
    let relay = dispatcher.create_relay();
    let cloned = relay.clone();
    relay.send(TestEvent::Add(1));
    cloned.send(TestEvent::Add(1));
    dispatcher.start();
    dispatcher.tick(Delay::from_millis(TICK), 10);
    assert_eq!(dispatcher.context().counter, 2);
    assert_eq!(dispatcher.context().log, vec![1, 1]);
}

#[test]
fn scheduled_event_fires_only_after_delay() {
    let mut dispatcher: Dispatcher<TestContext, TestEvent> = Dispatcher::new(TestContext::new());
    let relay = dispatcher.create_relay();
    relay.schedule(TestEvent::Add(7), Delay::from_millis(100));
    dispatcher.start();
    dispatcher.tick(Delay::from_millis(TICK), 10);
    assert_eq!(dispatcher.context().counter, 0);
    assert_eq!(dispatcher.scheduled_count(), 1);
    dispatcher.tick(Delay::from_millis(TICK), 10);
    assert_eq!(dispatcher.context().counter, 7);
    assert_eq!(dispatcher.scheduled_count(), 0);
}

#[test]
fn scheduled_event_dropped_on_stop() {
    let mut dispatcher: Dispatcher<TestContext, TestEvent> = Dispatcher::new(TestContext::new());
    let relay = dispatcher.create_relay();
    relay.schedule(TestEvent::Add(1), Delay::from_millis(10_000));
    relay.stop();
    dispatcher.start();
    dispatcher.tick(Delay::from_millis(TICK), 10);
    assert!(!dispatcher.is_running());
    assert_eq!(dispatcher.context().counter, 0);
    dispatcher.tick(Delay::from_millis(20_000), 10);
    assert!(!dispatcher.is_running());
    assert_eq!(dispatcher.context().counter, 0);
    assert!(dispatcher.context().log.is_empty());
}

#[test]
fn command_disconnection_is_implicit_stop() {
    let mut dispatcher: Dispatcher<TestContext, TestEvent> = Dispatcher::new(TestContext::new());
    dispatcher.start();
    assert!(dispatcher.is_running());
    let handled = dispatcher.process_command_attempt(RecvAttempt::Disconnected);
    assert!(!handled);
    assert!(!dispatcher.is_running());
}

#[test]
fn event_disconnection_is_implicit_stop() {
    let mut dispatcher: Dispatcher<TestContext, TestEvent> = Dispatcher::new(TestContext::new());
    dispatcher.start();
    let handled = dispatcher.process_event_attempt(RecvAttempt::Disconnected);
    assert!(!handled);
    assert!(!dispatcher.is_running());
    assert_eq!(dispatcher.context().counter, 0);
}

#[test]
fn equal_delay_entries_fire_in_scheduling_order() {
    let mut dispatcher: Dispatcher<TestContext, TestEvent> = Dispatcher::new(TestContext::new());
    let relay = dispatcher.create_relay();
    relay.schedule(TestEvent::Add(1), Delay::from_millis(TICK));
    relay.schedule(TestEvent::Add(2), Delay::from_millis(TICK));
    dispatcher.start();
    dispatcher.tick(Delay::from_millis(TICK), 10);
    assert_eq!(dispatcher.context().counter, 3);
    assert_eq!(dispatcher.context().log, vec![1, 2]);
}

#[test]
fn event_can_schedule_and_stop_through_relay() {
    let mut dispatcher: Dispatcher<TestContext, TestEvent> = Dispatcher::new(TestContext::new());
    let relay = dispatcher.create_relay();
    relay.send(TestEvent::ScheduleAdd(5, TICK));
    relay.send(TestEvent::StopLoop);
    dispatcher.start();
    // The two events are processed; the commands they send through the
    // relay sit in the command mailbox until the next tick.
    dispatcher.tick(Delay::from_millis(TICK), 10);
    assert_eq!(dispatcher.context().counter, 0);
    assert_eq!(dispatcher.scheduled_count(), 0);
    assert!(dispatcher.is_running());
    // Next tick: the schedule command becomes an entry, the entry becomes
    // ready and is processed within the tick, and the stop is honoured.
    dispatcher.tick(Delay::from_millis(TICK), 10);
    assert!(!dispatcher.is_running());
    assert_eq!(dispatcher.context().counter, 5);
}

#[test]
fn process_command_applies_stop_and_schedule() {
    let mut dispatcher: Dispatcher<TestContext, TestEvent> = Dispatcher::new(TestContext::new());
    dispatcher.start();
    dispatcher.process_command(Command::Schedule(TestEvent::Add(3), Delay::from_millis(5)));
    assert_eq!(dispatcher.scheduled_count(), 1);
    assert!(dispatcher.is_running());
    dispatcher.process_command(Command::Stop);
    assert!(!dispatcher.is_running());
    assert_eq!(dispatcher.scheduled_count(), 1);
}

#[test]
fn default_precision_is_fifty_milliseconds() {
    let dispatcher: Dispatcher<TestContext, TestEvent> = Dispatcher::new(TestContext::new());
    assert_eq!(dispatcher.precision().nanos, 50_000_000);
    assert!(!dispatcher.is_running());
    assert_eq!(dispatcher.scheduled_count(), 0);
}

#[test]
fn sleep_time_throttles_short_intervals() {
    let dispatcher: Dispatcher<TestContext, TestEvent> = Dispatcher::new(TestContext::new());
    assert_eq!(
        dispatcher.sleep_time(Delay::from_millis(20)),
        Some(Delay::from_millis(30))
    );
    assert_eq!(dispatcher.sleep_time(Delay::from_millis(50)), None);
    assert_eq!(dispatcher.sleep_time(Delay::from_millis(80)), None);
}

#[test]
fn delay_arithmetic_saturates_at_zero() {
    assert_eq!(Delay::from_millis(2).nanos, 2_000_000);
    assert_eq!(Delay::from_nanos(17).nanos, 17);
    assert_eq!(Delay::zero().nanos, 0);
    let d = Delay::from_millis(5);
    assert_eq!(d.saturating_sub(Delay::from_millis(2)), Delay::from_millis(3));
    assert_eq!(d.saturating_sub(Delay::from_millis(5)), Delay::zero());
    assert_eq!(d.saturating_sub(Delay::from_millis(9)), Delay::zero());
    assert!(Delay::zero().is_zero());
    assert!(!d.is_zero());
}

#[test]
fn scheduled_entry_becomes_ready_once_delay_is_burnt() {
    let mut entry = ScheduledEvent::new(TestEvent::Add(9), Delay::from_millis(5));
    assert!(!entry.is_ready());
    entry.advance(Delay::from_millis(2));
    assert!(!entry.is_ready());
    entry.advance(Delay::from_millis(3));
    assert!(entry.is_ready());
    assert_eq!(entry.get_event(), TestEvent::Add(9));
}

#[test]
fn drain_ready_splits_and_keeps_order() {
    let mut entries = vec![
        ScheduledEvent::new(TestEvent::Add(1), Delay::from_millis(10)),
        ScheduledEvent::new(TestEvent::Add(2), Delay::from_millis(90)),
        ScheduledEvent::new(TestEvent::Add(3), Delay::from_millis(50)),
    ];
    let ready = drain_ready(&mut entries, Delay::from_millis(50));
    assert_eq!(ready, vec![TestEvent::Add(1), TestEvent::Add(3)]);
    assert_eq!(entries.len(), 1);
    assert!(!entries[0].is_ready());
    assert_eq!(entries.remove(0).get_event(), TestEvent::Add(2));
}

#[test]
fn send_to_dropped_dispatcher_is_silently_dropped() {
    let relay: Relay<TestEvent>;
    {
        let dispatcher: Dispatcher<TestContext, TestEvent> = Dispatcher::new(TestContext::new());
        relay = dispatcher.create_relay();
    }
    // Both mailboxes are gone; every operation is fire-and-forget and none
    // may panic or surface an error.
    relay.send(TestEvent::Add(1));
    relay.schedule(TestEvent::Add(2), Delay::from_millis(5));
    relay.stop();
}

#[test]
fn channel_delivers_in_fifo_order() {
    let channel: Channel<i64> = Channel::new();
    channel.get_sender().send(1).unwrap();
    channel.get_sender().send(2).unwrap();
    assert_eq!(channel.get_receiver().try_recv(), Ok(1));
    assert_eq!(channel.get_receiver().try_recv(), Ok(2));
    assert!(channel.get_receiver().try_recv().is_err());
}
