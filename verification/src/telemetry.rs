//! What is written to the store.
//!
//! The store keeps four logs, each a list of records in the order of their
//! times. A record has one field, named `value`.

use vstd::prelude::*;

verus! {

/// Whether the sensor can be heard.
#[derive(Clone, Copy, Debug, PartialEq, Eq)]
pub enum Status {
    /// A session with the sensor began.
    Up,
    /// The sensor could not be reached.
    Down,
    /// A session broke off.
    Crash,
}

/// The four logs.
#[derive(Clone, Copy, Debug, PartialEq, Eq)]
pub enum Log {
    Service,
    State,
    Duty,
    InFlow,
}

/// The time under which a record is filed.
#[derive(Clone, Copy, Debug, PartialEq, Eq)]
pub enum Id {
    /// The time at which the store gets the record.
    Auto,
    /// The time of the event, in milliseconds.
    At(u64),
}

/// What a record says. A cycle that took no time has neither duty nor
/// in-flow: their records then say that there is no number.
#[derive(Clone, Copy, Debug, PartialEq, Eq)]
pub enum Sample {
    /// The state of the service.
    Service(Status),
    /// Whether the pump went on.
    Pump(bool),
    /// A duty in percent.
    Duty(Option<u64>),
    /// An in-flow in hundredths.
    InFlow(Option<u64>),
}

/// One record.
#[derive(Clone, Copy, Debug, PartialEq, Eq)]
pub struct Record {
    pub id: Id,
    pub sample: Sample,
}

impl Status {
    /// The word for the status.
    pub open spec fn word(self) -> Seq<char> {
        match self {
            Status::Up => "up"@,
            Status::Down => "down"@,
            Status::Crash => "crash"@,
        }
    }

    /// The word for the status.
    pub fn as_str(&self) -> (s: &'static str)
        ensures
            s@ == self.word(),
    {
        match self {
            Status::Up => "up",
            Status::Down => "down",
            Status::Crash => "crash",
        }
    }
}

impl Log {
    /// The key of the log in the store.
    pub open spec fn name(self) -> Seq<char> {
        match self {
            Log::Service => "sump:service.hist"@,
            Log::State => "sump:state.hist"@,
            Log::Duty => "sump:duty.hist"@,
            Log::InFlow => "sump:in-flow.hist"@,
        }
    }

    /// The key of the log in the store.
    pub fn key(&self) -> (s: &'static str)
        ensures
            s@ == self.name(),
    {
        match self {
            Log::Service => "sump:service.hist",
            Log::State => "sump:state.hist",
            Log::Duty => "sump:duty.hist",
            Log::InFlow => "sump:in-flow.hist",
        }
    }
}

impl Sample {
    /// The log that the sample belongs to.
    pub open spec fn log_of(self) -> Log {
        match self {
            Sample::Service(_) => Log::Service,
            Sample::Pump(_) => Log::State,
            Sample::Duty(_) => Log::Duty,
            Sample::InFlow(_) => Log::InFlow,
        }
    }

    /// The word that the sample is written as, where it is one.
    pub open spec fn word(self) -> Option<Seq<char>> {
        match self {
            Sample::Service(status) => Some(status.word()),
            Sample::Pump(true) => Some("on"@),
            Sample::Pump(false) => Some("off"@),
            _ => None,
        }
    }

    /// The log that the sample belongs to.
    pub fn log(&self) -> (log: Log)
        ensures
            log == self.log_of(),
    {
        match self {
            Sample::Service(_) => Log::Service,
            Sample::Pump(_) => Log::State,
            Sample::Duty(_) => Log::Duty,
            Sample::InFlow(_) => Log::InFlow,
        }
    }

    /// The word that the sample is written as. A duty and an in-flow are
    /// numbers and have none.
    pub fn as_str(&self) -> (s: Option<&'static str>)
        ensures
            match s {
                Some(w) => self.word() == Some(w@),
                None => self.word() is None,
            },
    {
        match self {
            Sample::Service(status) => Some(status.as_str()),
            Sample::Pump(true) => Some("on"),
            Sample::Pump(false) => Some("off"),
            _ => None,
        }
    }
}

/// The name of the one field of a record.
pub fn field() -> (s: &'static str)
    ensures
        s@ == "value"@,
{
    "value"
}

/// The record of a change in the service, filed under the time at which it
/// is written.
pub open spec fn service_entry(status: Status) -> Record {
    Record { id: Id::Auto, sample: Sample::Service(status) }
}

/// The record that the pump went on at `stamp`.
pub open spec fn pump_on_entry(stamp: u64) -> Record {
    Record { id: Id::At(stamp), sample: Sample::Pump(true) }
}

/// The records of a cycle that ended at `stamp`: the pump went off, the duty
/// and the in-flow, all three under that time.
pub open spec fn cycle_entries(stamp: u64, duty: Option<u64>, in_flow: Option<u64>) -> Seq<
    Record,
> {
    seq![
        Record { id: Id::At(stamp), sample: Sample::Pump(false) },
        Record { id: Id::At(stamp), sample: Sample::Duty(duty) },
        Record { id: Id::At(stamp), sample: Sample::InFlow(in_flow) },
    ]
}

/// The record of a change in the service.
pub fn service_record(status: Status) -> (r: Record)
    ensures
        r == service_entry(status),
{
    Record { id: Id::Auto, sample: Sample::Service(status) }
}

/// The record that the pump went on at `stamp`.
pub fn pump_on_record(stamp: u64) -> (r: Record)
    ensures
        r == pump_on_entry(stamp),
{
    Record { id: Id::At(stamp), sample: Sample::Pump(true) }
}

/// The three records of a cycle that ended at `stamp`. They belong together
/// and are to be written as one: all of them or none.
pub fn cycle_records(stamp: u64, duty: Option<u64>, in_flow: Option<u64>) -> (batch: Vec<Record>)
    ensures
        batch@ == cycle_entries(stamp, duty, in_flow),
{
    let mut batch: Vec<Record> = Vec::new();
    batch.push(Record { id: Id::At(stamp), sample: Sample::Pump(false) });
    batch.push(Record { id: Id::At(stamp), sample: Sample::Duty(duty) });
    batch.push(Record { id: Id::At(stamp), sample: Sample::InFlow(in_flow) });
    assert(batch@ =~= cycle_entries(stamp, duty, in_flow));
    batch
}

} // verus!
