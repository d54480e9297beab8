use led_remote::command::Channel;
use led_remote::consumer::LoopState::{Closed, Dispatching, Waiting};
use led_remote::consumer::Signal::{DispatchReturned, FetchFailed, LifecycleEvent, MessageReceived};
use led_remote::consumer::{EventConsumer, Fetched, LoopState, Signal};
use led_remote::dispatch::{Dispatcher, DriverWrite};
use led_remote::intensity::IntensityChannel;
use led_remote::toggle::ToggleOutput;

fn waiting_consumer(max: u32) -> EventConsumer {
    EventConsumer::new(Dispatcher::new(
        IntensityChannel::new(max),
        IntensityChannel::new(max),
        IntensityChannel::new(max),
        ToggleOutput::new(false),
    ))
}

#[test]
fn transition_table() {
    assert_eq!(Waiting.next(MessageReceived), Dispatching);
    assert_eq!(Waiting.next(LifecycleEvent), Waiting);
    assert_eq!(Waiting.next(DispatchReturned), Waiting);
    assert_eq!(Waiting.next(FetchFailed), Closed);

    assert_eq!(Dispatching.next(MessageReceived), Dispatching);
    assert_eq!(Dispatching.next(LifecycleEvent), Dispatching);
    assert_eq!(Dispatching.next(DispatchReturned), Waiting);
    assert_eq!(Dispatching.next(FetchFailed), Closed);

    assert_eq!(Closed.next(MessageReceived), Closed);
    assert_eq!(Closed.next(LifecycleEvent), Closed);
    assert_eq!(Closed.next(DispatchReturned), Closed);
    assert_eq!(Closed.next(FetchFailed), Closed);
}

#[test]
fn signals_of_fetches() {
    assert_eq!(Fetched::Message(b"R").signal(), Signal::MessageReceived);
    assert_eq!(Fetched::Message(b"").signal(), Signal::MessageReceived);
    assert_eq!(Fetched::Lifecycle.signal(), Signal::LifecycleEvent);
    assert_eq!(Fetched::Failed.signal(), Signal::FetchFailed);
}

#[test]
fn a_new_consumer_waits() {
    let consumer = waiting_consumer(17);
    assert_eq!(consumer.state(), LoopState::Waiting);
    assert_eq!(consumer.dispatcher().channel(Channel::Red).current_duty(), 0);
    assert!(!consumer.dispatcher().output().is_on());
}

#[test]
fn a_message_is_dispatched_and_the_loop_waits_again() {
    let mut consumer = waiting_consumer(17);

    let write = consumer.on_fetch(Fetched::Message(b"g"));
    assert_eq!(write, DriverWrite::SetDuty { which: Channel::Green, duty: 5 });
    assert_eq!(consumer.state(), LoopState::Dispatching);
    assert_eq!(consumer.dispatcher().channel(Channel::Green).current_duty(), 5);

    consumer.on_dispatch_returned();
    assert_eq!(consumer.state(), LoopState::Waiting);
    assert_eq!(consumer.dispatcher().channel(Channel::Green).current_duty(), 5);
}

#[test]
fn an_unrecognized_message_is_dispatched_as_nothing() {
    let mut consumer = waiting_consumer(17);
    consumer.on_fetch(Fetched::Message(b"W"));
    consumer.on_dispatch_returned();
    let before = consumer.dispatcher().clone();

    let payloads: [&[u8]; 5] = [b"", b"z", &[7], b"WW", b"hello"];
    for payload in payloads {
        let write = consumer.on_fetch(Fetched::Message(payload));
        assert_eq!(write, DriverWrite::Nothing);
        assert_eq!(consumer.state(), LoopState::Dispatching);
        consumer.on_dispatch_returned();
        assert_eq!(consumer.state(), LoopState::Waiting);
        assert_eq!(*consumer.dispatcher(), before);
    }
}

#[test]
fn lifecycle_events_are_consumed_and_ignored() {
    let mut consumer = waiting_consumer(17);
    let before = consumer.clone();
    assert_eq!(consumer.on_fetch(Fetched::Lifecycle), DriverWrite::Nothing);
    assert_eq!(consumer, before);
    consumer.on_dispatch_returned();
    assert_eq!(consumer, before);
}

#[test]
fn a_failed_fetch_closes_the_loop_for_good() {
    let mut consumer = waiting_consumer(17);
    consumer.on_fetch(Fetched::Message(b"R"));
    consumer.on_dispatch_returned();

    assert_eq!(consumer.on_fetch(Fetched::Failed), DriverWrite::Nothing);
    assert_eq!(consumer.state(), LoopState::Closed);
    let closed = consumer.clone();

    assert_eq!(consumer.on_fetch(Fetched::Message(b"R")), DriverWrite::Nothing);
    assert_eq!(consumer, closed);
    assert_eq!(consumer.on_fetch(Fetched::Lifecycle), DriverWrite::Nothing);
    assert_eq!(consumer, closed);
    consumer.on_dispatch_returned();
    assert_eq!(consumer, closed);
    assert_eq!(consumer.dispatcher().channel(Channel::Red).current_duty(), 5);
}

#[test]
fn a_message_during_a_dispatch_is_not_dispatched() {
    let mut consumer = waiting_consumer(17);
    consumer.on_fetch(Fetched::Message(b"R"));
    assert_eq!(consumer.state(), LoopState::Dispatching);

    assert_eq!(consumer.on_fetch(Fetched::Message(b"R")), DriverWrite::Nothing);
    assert_eq!(consumer.state(), LoopState::Dispatching);
    assert_eq!(consumer.dispatcher().channel(Channel::Red).current_duty(), 5);

    assert_eq!(consumer.on_fetch(Fetched::Failed), DriverWrite::Nothing);
    assert_eq!(consumer.state(), LoopState::Closed);
}

#[test]
fn run_stops_at_the_failed_fetch() {
    let mut consumer = waiting_consumer(17);
    let script = [
        Fetched::Message(b"R"),
        Fetched::Message(b"g"),
        Fetched::Message(b"R"),
        Fetched::Message(b"w"),
        Fetched::Failed,
        Fetched::Message(b"B"),
        Fetched::Message(b"R"),
    ];

    let report = consumer.run(&script);

    assert_eq!(report.fetches, 5);
    assert_eq!(
        report.writes,
        vec![
            DriverWrite::SetDuty { which: Channel::Red, duty: 5 },
            DriverWrite::SetDuty { which: Channel::Green, duty: 5 },
            DriverWrite::SetDuty { which: Channel::Red, duty: 10 },
            DriverWrite::Toggle { on: true },
        ]
    );
    assert_eq!(consumer.state(), LoopState::Closed);
    assert_eq!(consumer.dispatcher().channel(Channel::Red).current_duty(), 10);
    assert_eq!(consumer.dispatcher().channel(Channel::Green).current_duty(), 5);
    assert_eq!(consumer.dispatcher().channel(Channel::Blue).current_duty(), 0);
    assert!(consumer.dispatcher().output().is_on());
}

#[test]
fn run_makes_one_dispatch_per_message_for_any_count() {
    for n in 0..12usize {
        let mut consumer = waiting_consumer(17);
        let mut script = vec![Fetched::Message(b"b"); n];
        script.push(Fetched::Failed);
        script.push(Fetched::Message(b"b"));
        script.push(Fetched::Failed);

        let report = consumer.run(&script);

        assert_eq!(report.fetches, n + 1);
        assert_eq!(report.writes.len(), n);
        for (i, write) in report.writes.iter().enumerate() {
            let duty = 5 * ((i as u32 + 1) % 4);
            assert_eq!(*write, DriverWrite::SetDuty { which: Channel::Blue, duty });
        }
        assert_eq!(consumer.state(), LoopState::Closed);
        assert_eq!(
            consumer.dispatcher().channel(Channel::Blue).current_duty(),
            5 * (n as u32 % 4)
        );
    }
}

#[test]
fn run_keeps_the_order_of_the_messages() {
    let mut one = waiting_consumer(11);
    let mut other = waiting_consumer(11);

    one.run(&[Fetched::Message(b"R"), Fetched::Message(b"R"), Fetched::Message(b"W")]);
    other.run(&[Fetched::Message(b"W"), Fetched::Message(b"R"), Fetched::Message(b"R")]);
    assert_eq!(one, other);

    let first = one.run(&[Fetched::Message(b"R"), Fetched::Message(b"W")]);
    let second = other.run(&[Fetched::Message(b"W"), Fetched::Message(b"R")]);
    assert_eq!(
        first.writes,
        vec![DriverWrite::SetDuty { which: Channel::Red, duty: 0 }, DriverWrite::Toggle { on: false }]
    );
    assert_eq!(
        second.writes,
        vec![DriverWrite::Toggle { on: false }, DriverWrite::SetDuty { which: Channel::Red, duty: 0 }]
    );
}

#[test]
fn run_skips_lifecycle_events_and_counts_them_as_fetches() {
    let mut consumer = waiting_consumer(17);
    let script = [
        Fetched::Lifecycle,
        Fetched::Lifecycle,
        Fetched::Message(b"R"),
        Fetched::Lifecycle,
        Fetched::Message(b"?"),
        Fetched::Failed,
    ];

    let report = consumer.run(&script);

    assert_eq!(report.fetches, 6);
    assert_eq!(
        report.writes,
        vec![DriverWrite::SetDuty { which: Channel::Red, duty: 5 }, DriverWrite::Nothing]
    );
    assert_eq!(consumer.state(), LoopState::Closed);
}

#[test]
fn run_without_a_failure_uses_the_script_up_and_waits() {
    let mut consumer = waiting_consumer(17);
    let report = consumer.run(&[Fetched::Message(b"R"), Fetched::Lifecycle]);
    assert_eq!(report.fetches, 2);
    assert_eq!(report.writes.len(), 1);
    assert_eq!(consumer.state(), LoopState::Waiting);

    let empty = consumer.run(&[]);
    assert_eq!(empty.fetches, 0);
    assert!(empty.writes.is_empty());
    assert_eq!(consumer.state(), LoopState::Waiting);
}

#[test]
fn run_on_a_closed_loop_fetches_nothing() {
    let mut consumer = waiting_consumer(17);
    consumer.run(&[Fetched::Failed]);
    let closed = consumer.clone();

    let report = consumer.run(&[Fetched::Message(b"R"), Fetched::Failed]);

    assert_eq!(report.fetches, 0);
    assert!(report.writes.is_empty());
    assert_eq!(consumer, closed);
}

#[test]
fn run_in_the_middle_of_a_dispatch_fetches_nothing() {
    let mut consumer = waiting_consumer(17);
    consumer.on_fetch(Fetched::Message(b"R"));
    let busy = consumer.clone();

    let report = consumer.run(&[Fetched::Message(b"R"), Fetched::Failed]);

    assert_eq!(report.fetches, 0);
    assert!(report.writes.is_empty());
    assert_eq!(consumer, busy);
}

#[test]
fn run_agrees_with_the_single_steps() {
    let script = [
        Fetched::Message(b"R"),
        Fetched::Lifecycle,
        Fetched::Message(b"rw"),
        Fetched::Message(b"w"),
        Fetched::Message(b"B"),
        Fetched::Failed,
    ];
    let mut whole = waiting_consumer(17);
    let report = whole.run(&script);

    let mut stepped = waiting_consumer(17);
    let mut writes = Vec::new();
    let mut fetches = 0;
    for fetched in script {
        if stepped.state() != LoopState::Waiting {
            break;
        }
        let write = stepped.on_fetch(fetched);
        fetches += 1;
        if stepped.state() == LoopState::Dispatching {
            writes.push(write);
            stepped.on_dispatch_returned();
        }
    }

    assert_eq!(whole, stepped);
    assert_eq!(report.fetches, fetches);
    assert_eq!(report.writes, writes);
}
