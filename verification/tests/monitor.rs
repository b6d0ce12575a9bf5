use sump_monitor::cycle::State;
use sump_monitor::frame::Frame;
use sump_monitor::lamp::{lamp_alert, lamp_greeting, lamp_off, lamp_on};
use sump_monitor::monitor::{Action, Event, Monitor, Phase, Show, Task, RETRY_MILLIS};
use sump_monitor::telemetry::{Id, Log, Record, Sample, Status};

fn off(stamp: u64) -> Event {
    Event::Frame(Frame { stamp, pump_on: false })
}

fn on(stamp: u64) -> Event {
    Event::Frame(Frame { stamp, pump_on: true })
}

fn connected() -> Monitor {
    let mut monitor = Monitor::new();

    assert_eq!(
        vec![Action::Write(Record { id: Id::Auto, sample: Sample::Service(Status::Up) })],
        monitor.step(Event::Connected)
    );
    monitor
}

#[test]
fn test_monitor_starts_connecting() {
    let monitor = Monitor::new();

    assert_eq!(Monitor { phase: Phase::Connecting, pump: State::Unknown }, monitor);
    assert_eq!(Task::Connect, monitor.next());
}

#[test]
fn test_connect() {
    let monitor = connected();

    assert_eq!(Monitor { phase: Phase::Connected, pump: State::Unknown }, monitor);
    assert_eq!(Task::Read, monitor.next());
}

#[test]
fn test_connect_failure() {
    let mut monitor = Monitor::new();

    assert_eq!(
        vec![
            Action::Write(Record { id: Id::Auto, sample: Sample::Service(Status::Down) }),
            Action::Show(Show::Alert),
        ],
        monitor.step(Event::ConnectFailed)
    );
    assert_eq!(Monitor { phase: Phase::Disconnected, pump: State::Unknown }, monitor);
    assert_eq!(Task::Wait { millis: 10_000 }, monitor.next());
    assert_eq!(10_000, RETRY_MILLIS);

    assert_eq!(Vec::<Action>::new(), monitor.step(Event::Waited));
    assert_eq!(Task::Connect, monitor.next());
}

#[test]
fn test_end_to_end() {
    let mut monitor = connected();
    let mut records: Vec<(bool, Vec<Record>)> = vec![];
    let mut shows: Vec<Show> = vec![];

    for event in [off(100), on(200), off(2000)] {
        assert!(monitor.accepts(&event));
        for action in monitor.step(event) {
            match action {
                Action::Show(show) => shows.push(show),
                _ => records.push((action.is_atomic(), action.records())),
            }
        }
        assert_eq!(Task::Read, monitor.next());
    }

    assert_eq!(
        vec![
            (false, vec![Record { id: Id::At(200), sample: Sample::Pump(true) }]),
            (
                true,
                vec![
                    Record { id: Id::At(2000), sample: Sample::Pump(false) },
                    Record { id: Id::At(2000), sample: Sample::Duty(Some(95)) },
                    Record { id: Id::At(2000), sample: Sample::InFlow(Some(424_333)) },
                ]
            ),
        ],
        records
    );
    assert_eq!(vec![Show::Running, Show::Finished(Some(95))], shows);
    assert_eq!(
        Monitor { phase: Phase::Connected, pump: State::Off { off_time: 2000 } },
        monitor
    );
}

#[test]
fn test_sync_off_writes_nothing() {
    let mut monitor = connected();

    assert_eq!(Vec::<Action>::new(), monitor.step(off(100)));
    assert_eq!(
        Monitor { phase: Phase::Connected, pump: State::Off { off_time: 100 } },
        monitor
    );
}

#[test]
fn test_on_event() {
    let mut monitor = connected();

    // Before the first OFF an ON counts for nothing.
    assert_eq!(Vec::<Action>::new(), monitor.step(on(50)));
    assert_eq!(Vec::<Action>::new(), monitor.step(off(100)));
    assert_eq!(
        vec![
            Action::Show(Show::Running),
            Action::Write(Record { id: Id::At(200), sample: Sample::Pump(true) }),
        ],
        monitor.step(on(200))
    );
    // A repeat is passed over.
    assert_eq!(Vec::<Action>::new(), monitor.step(on(300)));
    assert_eq!(
        Monitor { phase: Phase::Connected, pump: State::On { off_time: 100, on_time: 200 } },
        monitor
    );
}

#[test]
fn test_off_event() {
    let mut monitor = connected();

    monitor.step(off(0));
    monitor.step(on(90_000));
    assert_eq!(
        vec![
            Action::Show(Show::Finished(Some(10))),
            Action::WriteCycle { stamp: 100_000, duty: Some(10), in_flow: Some(44_667) },
        ],
        monitor.step(off(100_000))
    );
    // A repeat is passed over.
    assert_eq!(Vec::<Action>::new(), monitor.step(off(100_001)));
    assert_eq!(
        Monitor { phase: Phase::Connected, pump: State::Off { off_time: 100_000 } },
        monitor
    );
}

#[test]
fn test_read_failure() {
    let mut monitor = connected();

    monitor.step(off(100));
    monitor.step(on(200));

    let todo = monitor.step(Event::ReadFailed);

    assert_eq!(
        vec![
            Action::Write(Record { id: Id::Auto, sample: Sample::Service(Status::Crash) }),
            Action::Show(Show::Alert),
        ],
        todo
    );
    assert_eq!(
        1,
        todo.iter()
            .flat_map(|a| a.records())
            .filter(|r| r.sample == Sample::Service(Status::Crash))
            .count()
    );
    assert_eq!(Monitor { phase: Phase::Disconnected, pump: State::Unknown }, monitor);
    assert_eq!(Task::Wait { millis: 10_000 }, monitor.next());

    // Nothing but the end of the wait leads on.
    for event in [
        Event::Connected,
        Event::ConnectFailed,
        off(300),
        on(400),
        Event::ReadFailed,
        Event::WriteFailed,
    ] {
        assert_eq!(Vec::<Action>::new(), monitor.step(event));
        assert_eq!(Task::Wait { millis: 10_000 }, monitor.next());
    }
    assert_eq!(Vec::<Action>::new(), monitor.step(Event::Waited));
    assert_eq!(Task::Connect, monitor.next());

    // The next session starts afresh: its first OFF ends no cycle.
    monitor.step(Event::Connected);
    assert_eq!(Vec::<Action>::new(), monitor.step(off(5_000)));
}

#[test]
fn test_write_failure() {
    // Within a session.
    let mut monitor = connected();

    monitor.step(off(100));
    monitor.step(on(200));
    assert!(monitor.accepts(&Event::WriteFailed));
    assert_eq!(Vec::<Action>::new(), monitor.step(Event::WriteFailed));
    assert_eq!(Monitor { phase: Phase::Disconnected, pump: State::Unknown }, monitor);
    assert_eq!(Task::Wait { millis: 10_000 }, monitor.next());
    assert_eq!(Vec::<Action>::new(), monitor.step(Event::Waited));
    assert_eq!(Task::Connect, monitor.next());

    // While the failure to connect is written.
    let mut monitor = Monitor::new();

    monitor.step(Event::ConnectFailed);
    assert_eq!(Vec::<Action>::new(), monitor.step(Event::WriteFailed));
    assert_eq!(Monitor { phase: Phase::Disconnected, pump: State::Unknown }, monitor);
    assert_eq!(Task::Wait { millis: 10_000 }, monitor.next());

    // While the start of a session is written: the session is over.
    let mut monitor = Monitor::new();

    monitor.step(Event::Connected);
    assert_eq!(Vec::<Action>::new(), monitor.step(Event::WriteFailed));
    assert_eq!(Task::Wait { millis: 10_000 }, monitor.next());
}

#[test]
fn test_events_out_of_turn() {
    let mut monitor = Monitor::new();

    for event in [off(1), on(2), Event::ReadFailed, Event::Waited] {
        assert!(monitor.accepts(&event));
        assert_eq!(Vec::<Action>::new(), monitor.step(event));
        assert_eq!(Monitor::new(), monitor);
    }

    let mut monitor = connected();

    monitor.step(off(100));
    for event in [Event::Connected, Event::ConnectFailed, Event::Waited] {
        assert_eq!(Vec::<Action>::new(), monitor.step(event));
        assert_eq!(
            Monitor { phase: Phase::Connected, pump: State::Off { off_time: 100 } },
            monitor
        );
    }
}

#[test]
fn test_accepts() {
    let mut monitor = connected();

    assert!(monitor.accepts(&off(0)));
    monitor.step(off(100));
    assert!(monitor.accepts(&on(100)));
    assert!(!monitor.accepts(&on(99)));
    assert!(monitor.accepts(&off(99)));
    monitor.step(on(200));
    assert!(monitor.accepts(&off(200)));
    assert!(!monitor.accepts(&off(199)));
    assert!(monitor.accepts(&on(0)));
    assert!(monitor.accepts(&Event::ReadFailed));
}

#[test]
fn test_cycle_of_no_length_is_an_alert() {
    let mut monitor = connected();

    monitor.step(off(100));
    monitor.step(on(100));
    assert_eq!(
        vec![
            Action::Show(Show::Finished(None)),
            Action::WriteCycle { stamp: 100, duty: None, in_flow: None },
        ],
        monitor.step(off(100))
    );
    assert_eq!(lamp_off(None), Show::Finished(None).commands());
}

#[test]
fn test_show_commands() {
    assert_eq!(lamp_greeting(), Show::Greeting.commands());
    assert_eq!(lamp_on(), Show::Running.commands());
    assert_eq!(lamp_alert(), Show::Alert.commands());
    assert_eq!(lamp_off(Some(95)), Show::Finished(Some(95)).commands());
    assert_eq!(lamp_off(Some(3)), Show::Finished(Some(3)).commands());
}

#[test]
fn test_action_records() {
    let single = Action::Write(Record { id: Id::At(9), sample: Sample::Pump(true) });

    assert_eq!(vec![Record { id: Id::At(9), sample: Sample::Pump(true) }], single.records());
    assert!(!single.is_atomic());

    let batch = Action::WriteCycle { stamp: 9, duty: Some(50), in_flow: Some(223_333) };
    let records = batch.records();

    assert!(batch.is_atomic());
    assert_eq!(3, records.len());
    assert_eq!(
        vec![Log::State, Log::Duty, Log::InFlow],
        records.iter().map(|r| r.sample.log()).collect::<Vec<Log>>()
    );
    assert!(records.iter().all(|r| r.id == Id::At(9)));

    assert_eq!(Vec::<Record>::new(), Action::Show(Show::Alert).records());
    assert!(!Action::Show(Show::Alert).is_atomic());
}
