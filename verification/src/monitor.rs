//! The monitor: what to do about each thing that happens on the line to the
//! sensor.
//!
//! The monitor connects to the sensor, reads frames for as long as the line
//! holds, and after a failure waits and connects again, for ever. Connecting,
//! reading and waiting are the caller's work. Here is what decides: the
//! caller asks for the next task, carries it out, and hands back what came of
//! it as an event. For each event the monitor names, in order, what is to be
//! written and shown. The caller carries that out before it asks for the next
//! task, and where a write fails it leaves the rest and says so.

use crate::cycle::{Cycle, DutyResult, State};
use crate::frame::Frame;
use crate::lamp::{alert, finished, greeting, running, HueCommands};
use crate::lamp::{lamp_alert, lamp_greeting, lamp_off, lamp_on};
use crate::telemetry::{cycle_entries, cycle_records, pump_on_entry, service_entry};
use crate::telemetry::{pump_on_record, service_record, Record, Status};
use vstd::prelude::*;

verus! {

/// How long to wait after a failure before connecting again, in
/// milliseconds.
pub const RETRY_MILLIS: u64 = 10_000;

/// Where the monitor stands with the sensor.
#[derive(Clone, Copy, Debug, PartialEq, Eq)]
pub enum Phase {
    /// About to connect.
    Connecting,
    /// In a session: reading frames.
    Connected,
    /// After a failure: waiting.
    Disconnected,
}

/// What the caller does next.
#[derive(Clone, Copy, Debug, PartialEq, Eq)]
pub enum Task {
    /// Connect to the sensor.
    Connect,
    /// Read one frame.
    Read,
    /// Let this many milliseconds pass.
    Wait { millis: u64 },
}

/// What came of a task.
#[derive(Clone, Copy, Debug, PartialEq, Eq)]
pub enum Event {
    /// The sensor was reached.
    Connected,
    /// The sensor could not be reached.
    ConnectFailed,
    /// A frame came.
    Frame(Frame),
    /// No frame came: the line broke, or gave too little.
    ReadFailed,
    /// The wait is over.
    Waited,
    /// A write to the store failed. What was still to be done about the
    /// event before is given up.
    WriteFailed,
}

/// A program for the lamps, by its occasion.
#[derive(Clone, Copy, Debug, PartialEq, Eq)]
pub enum Show {
    /// The monitor starts.
    Greeting,
    /// The pump went on.
    Running,
    /// The sensor is lost.
    Alert,
    /// A cycle ended, with this duty in percent.
    Finished(Option<u64>),
}

/// Something for the caller to carry out.
#[derive(Clone, Copy, Debug, PartialEq, Eq)]
pub enum Action {
    /// Write one record.
    Write(Record),
    /// Write the three records of a cycle that ended at `stamp`, as one.
    WriteCycle { stamp: u64, duty: Option<u64>, in_flow: Option<u64> },
    /// Hand a program to the lamps, without waiting for them.
    Show(Show),
}

/// The monitor: its phase, and what it knows of the pump's cycle.
#[derive(Clone, Copy, Debug, PartialEq, Eq)]
pub struct Monitor {
    pub phase: Phase,
    pub pump: State,
}

/// What is to be done about a cycle that ended at `stamp`: the lamps show its
/// duty, then its records are written.
pub open spec fn cycle_actions(stamp: u64, cycle: Cycle) -> Seq<Action> {
    seq![
        Action::Show(Show::Finished(cycle.duty())),
        Action::WriteCycle { stamp, duty: cycle.duty(), in_flow: cycle.in_flow() },
    ]
}

/// Whether `todo` is what is to be done about a cycle that ended at `stamp`,
/// said without a division by its length.
pub open spec fn reports_cycle(todo: Seq<Action>, stamp: u64, cycle: Cycle) -> bool {
    &&& todo.len() == 2
    &&& todo[1] matches Action::WriteCycle { stamp: at, duty, in_flow }
    &&& at == stamp
    &&& cycle.reports(duty, in_flow)
    &&& todo[0] == Action::Show(Show::Finished(duty))
}

impl Show {
    /// The commands of the program.
    pub open spec fn program(self) -> Seq<HueCommands> {
        match self {
            Show::Greeting => greeting(),
            Show::Running => running(),
            Show::Alert => alert(),
            Show::Finished(duty) => finished(duty),
        }
    }

    /// The commands of the program.
    pub fn commands(&self) -> (prog: Vec<HueCommands>)
        ensures
            prog@ == self.program(),
    {
        match self {
            Show::Greeting => lamp_greeting(),
            Show::Running => lamp_on(),
            Show::Alert => lamp_alert(),
            Show::Finished(duty) => lamp_off(*duty),
        }
    }
}

impl Action {
    /// The records that the action writes.
    pub open spec fn entries(self) -> Seq<Record> {
        match self {
            Action::Write(record) => seq![record],
            Action::WriteCycle { stamp, duty, in_flow } => cycle_entries(stamp, duty, in_flow),
            Action::Show(_) => Seq::empty(),
        }
    }

    /// Whether the records of the action are written as one: all of them or
    /// none, with nothing of another writer between them.
    pub open spec fn atomic(self) -> bool {
        self is WriteCycle
    }

    /// The records that the action writes, in order.
    pub fn records(&self) -> (batch: Vec<Record>)
        ensures
            batch@ == self.entries(),
    {
        match self {
            Action::Write(record) => {
                let mut batch: Vec<Record> = Vec::new();
                batch.push(*record);
                assert(batch@ =~= self.entries());
                batch
            },
            Action::WriteCycle { stamp, duty, in_flow } => cycle_records(*stamp, *duty, *in_flow),
            Action::Show(_) => Vec::new(),
        }
    }

    /// Whether the records of the action are written as one.
    pub fn is_atomic(&self) -> (b: bool)
        ensures
            b == self.atomic(),
    {
        match self {
            Action::WriteCycle { .. } => true,
            _ => false,
        }
    }
}

impl Monitor {
    /// Outside a session nothing is known of the pump, and within one the
    /// times are in order.
    pub open spec fn wf(self) -> bool {
        &&& self.pump.wf()
        &&& !(self.phase is Connected) ==> self.pump is Unknown
    }

    /// Whether `event` is in order: within a session, a frame that counts is
    /// no older than the one it follows.
    pub open spec fn in_order(self, event: Event) -> bool {
        self.phase is Connected ==> (event matches Event::Frame(frame) ==> self.pump.in_order(
            frame.stamp,
            frame.pump_on,
        ))
    }

    /// The task that the monitor waits on.
    pub open spec fn task(self) -> Task {
        match self.phase {
            Phase::Connecting => Task::Connect,
            Phase::Connected => Task::Read,
            Phase::Disconnected => Task::Wait { millis: RETRY_MILLIS },
        }
    }

    /// Whether `event` can come of the task that the monitor waits on, or of
    /// what was to be done about the event before.
    pub open spec fn answers(self, event: Event) -> bool {
        event is WriteFailed || match self.phase {
            Phase::Connecting => event is Connected || event is ConnectFailed,
            Phase::Connected => event is Frame || event is ReadFailed,
            Phase::Disconnected => event is Waited,
        }
    }

    /// The cycle that `event` ends: an OFF within a session, while the pump is
    /// on.
    pub open spec fn closes(self, event: Event) -> Option<Cycle> {
        match event {
            Event::Frame(frame) => if self.phase is Connected && !frame.pump_on {
                self.pump.ended_by(frame.stamp)
            } else {
                None
            },
            _ => None,
        }
    }

    /// The monitor after `event`.
    ///
    /// A session starts with nothing known of the pump and ends when a read
    /// or a write fails. A failure leads to a wait, and only the end of the
    /// wait leads to connecting again. An event that does not answer the task
    /// changes nothing.
    pub open spec fn after(self, event: Event) -> Monitor {
        if !self.answers(event) {
            self
        } else {
            match event {
                Event::Connected => Monitor { phase: Phase::Connected, pump: State::Unknown },
                Event::ConnectFailed => Monitor {
                    phase: Phase::Disconnected,
                    pump: State::Unknown,
                },
                Event::Frame(frame) => Monitor {
                    phase: Phase::Connected,
                    pump: if frame.pump_on {
                        self.pump.after_on(frame.stamp)
                    } else {
                        self.pump.after_off(frame.stamp)
                    },
                },
                Event::ReadFailed => Monitor { phase: Phase::Disconnected, pump: State::Unknown },
                Event::Waited => Monitor { phase: Phase::Connecting, pump: State::Unknown },
                Event::WriteFailed => Monitor {
                    phase: Phase::Disconnected,
                    pump: State::Unknown,
                },
            }
        }
    }

    /// What is to be done about `event`, in order.
    ///
    /// The start of a session and each failure to reach or to hear the sensor
    /// are written to the service log, and such a failure also raises the
    /// alert. A frame is written and shown only where it changes what is known
    /// of the pump: an ON after an OFF, and an OFF that ends a cycle. After a
    /// write that failed nothing is written or shown.
    pub open spec fn actions(self, event: Event) -> Seq<Action> {
        if !self.answers(event) {
            Seq::empty()
        } else {
            match event {
                Event::Connected => seq![Action::Write(service_entry(Status::Up))],
                Event::ConnectFailed => seq![
                    Action::Write(service_entry(Status::Down)),
                    Action::Show(Show::Alert),
                ],
                Event::Frame(frame) => if frame.pump_on {
                    if self.pump is Off {
                        seq![
                            Action::Show(Show::Running),
                            Action::Write(pump_on_entry(frame.stamp)),
                        ]
                    } else {
                        Seq::empty()
                    }
                } else {
                    match self.pump.ended_by(frame.stamp) {
                        Some(cycle) => cycle_actions(frame.stamp, cycle),
                        None => Seq::empty(),
                    }
                },
                Event::ReadFailed => seq![
                    Action::Write(service_entry(Status::Crash)),
                    Action::Show(Show::Alert),
                ],
                Event::Waited => Seq::empty(),
                Event::WriteFailed => Seq::empty(),
            }
        }
    }

    /// A monitor at its start: about to connect.
    pub fn new() -> (m: Monitor)
        ensures
            m == (Monitor { phase: Phase::Connecting, pump: State::Unknown }),
            m.wf(),
    {
        Monitor { phase: Phase::Connecting, pump: State::Unknown }
    }

    /// The task that the monitor waits on.
    pub fn next(&self) -> (task: Task)
        ensures
            task == self.task(),
    {
        match self.phase {
            Phase::Connecting => Task::Connect,
            Phase::Connected => Task::Read,
            Phase::Disconnected => Task::Wait { millis: RETRY_MILLIS },
        }
    }

    /// Whether `event` is in order, so that `step` can take it.
    pub fn accepts(&self, event: &Event) -> (b: bool)
        ensures
            b == self.in_order(*event),
    {
        match (self.phase, *event) {
            (Phase::Connected, Event::Frame(frame)) => self.pump.takes(frame.stamp, frame.pump_on),
            _ => true,
        }
    }

    /// Takes in `event` and names what is to be done about it, in order. The
    /// times of the sensor have to come in order.
    pub fn step(&mut self, event: Event) -> (todo: Vec<Action>)
        requires
            old(self).wf(),
            old(self).in_order(event),
        ensures
            *final(self) == old(self).after(event),
            todo@ == old(self).actions(event),
            final(self).wf(),
            old(self).closes(event) matches Some(cycle) ==> event matches Event::Frame(frame)
                && reports_cycle(todo@, frame.stamp, cycle),
    {
        let mut todo: Vec<Action> = Vec::new();
        match (self.phase, event) {
            (Phase::Connecting, Event::Connected) => {
                self.phase = Phase::Connected;
                self.pump = State::new();
                todo.push(Action::Write(service_record(Status::Up)));
            },
            (Phase::Connecting, Event::ConnectFailed) => {
                self.phase = Phase::Disconnected;
                todo.push(Action::Write(service_record(Status::Down)));
                todo.push(Action::Show(Show::Alert));
            },
            (Phase::Connected, Event::Frame(frame)) => {
                if frame.pump_on {
                    if self.pump.to_on(frame.stamp) {
                        todo.push(Action::Show(Show::Running));
                        todo.push(Action::Write(pump_on_record(frame.stamp)));
                    }
                } else {
                    match self.pump.to_off(frame.stamp) {
                        Some(DutyResult { duty_percent, in_flow }) => {
                            todo.push(Action::Show(Show::Finished(duty_percent)));
                            todo.push(
                                Action::WriteCycle {
                                    stamp: frame.stamp,
                                    duty: duty_percent,
                                    in_flow,
                                },
                            );
                        },
                        None => {},
                    }
                }
            },
            (Phase::Connected, Event::ReadFailed) => {
                self.phase = Phase::Disconnected;
                self.pump = State::new();
                todo.push(Action::Write(service_record(Status::Crash)));
                todo.push(Action::Show(Show::Alert));
            },
            (Phase::Disconnected, Event::Waited) => {
                self.phase = Phase::Connecting;
            },
            (_, Event::WriteFailed) => {
                self.phase = Phase::Disconnected;
                self.pump = State::new();
            },
            _ => {},
        }
        assert(todo@ =~= old(self).actions(event));
        todo
    }
}

/// The first OFF of a session is written nowhere, and the cycle after it is
/// written whole: for a session that sees an OFF at `t0`, an ON at `t1` and
/// an OFF at `t2`, nothing is done about the first, the ON is shown and
/// written as one record under `t1`, and the second OFF is shown and written
/// as one batch under `t2`, with the duty and the in-flow of the cycle from
/// `t0` to `t2`.
pub proof fn lemma_first_cycle(t0: u64, t1: u64, t2: u64)
    requires
        t0 <= t1 <= t2,
    ensures
        ({
            let off0 = Event::Frame(Frame { stamp: t0, pump_on: false });
            let on1 = Event::Frame(Frame { stamp: t1, pump_on: true });
            let off2 = Event::Frame(Frame { stamp: t2, pump_on: false });
            let cycle = Cycle { on_millis: (t2 - t1) as u64, off_millis: (t2 - t0) as u64 };
            let m0 = Monitor { phase: Phase::Connecting, pump: State::Unknown }.after(
                Event::Connected,
            );
            let m1 = m0.after(off0);
            let m2 = m1.after(on1);
            let m3 = m2.after(off2);
            &&& m0.actions(off0) == Seq::<Action>::empty()
            &&& m1.in_order(on1)
            &&& m1.actions(on1) == seq![
                Action::Show(Show::Running),
                Action::Write(pump_on_entry(t1)),
            ]
            &&& m2.in_order(off2)
            &&& m2.actions(off2) == cycle_actions(t2, cycle)
            &&& m2.actions(off2)[1].atomic()
            &&& m2.actions(off2)[1].entries() == cycle_entries(t2, cycle.duty(), cycle.in_flow())
            &&& m3 == (Monitor { phase: Phase::Connected, pump: State::Off { off_time: t2 } })
        }),
{
}

/// A read that fails within a session is written once, as a crash, and raises
/// the alert once. The monitor then waits for `RETRY_MILLIS`, and nothing but
/// the end of that wait makes it connect again.
pub proof fn lemma_read_failure(m: Monitor, event: Event)
    requires
        m.phase is Connected,
    ensures
        m.actions(Event::ReadFailed) == seq![
            Action::Write(service_entry(Status::Crash)),
            Action::Show(Show::Alert),
        ],
        m.after(Event::ReadFailed).task() == (Task::Wait { millis: RETRY_MILLIS }),
        m.after(Event::ReadFailed).after(event).task() is Connect <==> event is Waited,
        !(event is Waited) ==> m.after(Event::ReadFailed).after(event) == m.after(
            Event::ReadFailed,
        ) && m.after(Event::ReadFailed).actions(event) == Seq::<Action>::empty(),
{
}

/// A write that fails ends the session, if there is one, without another
/// write or a word to the lamps, and the monitor waits for `RETRY_MILLIS`
/// before it connects again.
pub proof fn lemma_write_failure(m: Monitor)
    ensures
        m.actions(Event::WriteFailed) == Seq::<Action>::empty(),
        m.after(Event::WriteFailed) == (Monitor {
            phase: Phase::Disconnected,
            pump: State::Unknown,
        }),
        m.after(Event::WriteFailed).task() == (Task::Wait { millis: RETRY_MILLIS }),
{
}

/// A session starts afresh: whatever came before, after connecting nothing is
/// known of the pump, so that the first OFF is never taken for the end of a
/// cycle.
pub proof fn lemma_session_starts_afresh(m: Monitor, stamp: u64)
    requires
        m.wf(),
        m.phase is Connecting,
    ensures
        m.after(Event::Connected).pump is Unknown,
        m.after(Event::Connected).actions(Event::Frame(Frame { stamp, pump_on: false }))
            == Seq::<Action>::empty(),
        m.after(Event::Connected).actions(Event::Frame(Frame { stamp, pump_on: true }))
            == Seq::<Action>::empty(),
{
}

} // verus!
