//! The commands that write records to the store.
//!
//! A record is written with `XADD`: the key of its log, the time under which
//! it is filed, and its one field with what the record says. The commands are
//! those of the `redis` crate, made here and sent by the caller.

use crate::data::{encoding, Type};
use crate::decimal::{decimal, hundredths, hundredths_text, put_decimal, whole, whole_text};
use crate::monitor::Action;
use crate::telemetry::{field, Id, Record, Sample};
use vstd::prelude::*;
use vstd::utf8::encode_utf8;

verus! {

/// `redis::Cmd`, a command for the store: held and handed on, never looked
/// into.
#[verifier::external_type_specification]
#[verifier::external_body]
pub struct ExCmd(redis::Cmd);

/// `redis::Pipeline`, several commands that are sent together: held and
/// handed on, never looked into.
#[verifier::external_type_specification]
#[verifier::external_body]
pub struct ExPipeline(redis::Pipeline);

/// The arguments that a command holds, in order, each as the bytes that are
/// sent for it: what `Cmd::args_iter` walks through.
pub uninterp spec fn cmd_args(cmd: redis::Cmd) -> Seq<Seq<u8>>;

/// The commands that a pipeline holds, in order, each by its arguments: what
/// `Pipeline::cmd_iter` walks through.
pub uninterp spec fn pipe_cmds(pipe: redis::Pipeline) -> Seq<Seq<Seq<u8>>>;

/// Whether a pipeline is in transaction mode: its commands are then sent
/// between `MULTI` and `EXEC`, as one transaction of the store.
pub uninterp spec fn pipe_atomic(pipe: redis::Pipeline) -> bool;

/// `redis::Cmd::new`: a command that holds no argument yet.
#[verifier::external_body]
fn new_cmd() -> (cmd: redis::Cmd)
    ensures
        cmd_args(cmd) == Seq::<Seq<u8>>::empty(),
{
    redis::Cmd::new()
}

/// `redis::Cmd::arg`, given a byte string: the command gets the bytes as one
/// more argument, after those it has.
#[verifier::external_body]
fn push_arg(cmd: &mut redis::Cmd, arg: &[u8])
    ensures
        cmd_args(*final(cmd)) == cmd_args(*old(cmd)).push(arg@),
{
    cmd.arg(arg);
}

/// `redis::pipe`: a pipeline that holds no command and is not in transaction
/// mode.
#[verifier::external_body]
fn new_pipe() -> (pipe: redis::Pipeline)
    ensures
        pipe_cmds(pipe) == Seq::<Seq<Seq<u8>>>::empty(),
        !pipe_atomic(pipe),
{
    redis::pipe()
}

/// `redis::Pipeline::atomic`: puts the pipeline in transaction mode and
/// leaves its commands as they are.
#[verifier::external_body]
fn make_atomic(pipe: &mut redis::Pipeline)
    ensures
        pipe_atomic(*final(pipe)),
        pipe_cmds(*final(pipe)) == pipe_cmds(*old(pipe)),
{
    pipe.atomic();
}

/// `redis::Pipeline::add_command`: the pipeline gets the command as one more,
/// after those it has, and stays in its mode.
#[verifier::external_body]
fn push_cmd(pipe: &mut redis::Pipeline, cmd: redis::Cmd)
    ensures
        pipe_cmds(*final(pipe)) == pipe_cmds(*old(pipe)).push(cmd_args(cmd)),
        pipe_atomic(*final(pipe)) == pipe_atomic(*old(pipe)),
{
    pipe.add_command(cmd);
}

/// What one sends to the store.
pub enum Request {
    /// One command.
    Single(redis::Cmd),
    /// Several commands as one transaction.
    Transaction(redis::Pipeline),
}

impl Type {
    /// Gives the value to a command as its next argument: the bytes that
    /// keep it.
    pub fn write_redis_args(&self, out: &mut redis::Cmd)
        ensures
            cmd_args(*final(out)) == cmd_args(*old(out)).push(encoding(self@)),
    {
        let bytes = self.encode();
        push_arg(out, bytes.as_slice());
    }
}

impl Id {
    /// The time as the store reads it: `*` for its own clock, else the
    /// milliseconds in decimal.
    pub open spec fn text(self) -> Seq<u8> {
        match self {
            Id::Auto => encode_utf8("*"@),
            Id::At(stamp) => decimal(stamp as nat),
        }
    }
}

impl Sample {
    /// What the record says, as the store keeps it: a word as it is, a number
    /// as a decimal fraction, and `NaN` where there is no number.
    pub open spec fn text(self) -> Seq<u8> {
        match self {
            Sample::Duty(Some(percent)) => whole(percent as nat),
            Sample::InFlow(Some(h)) => hundredths(h as nat),
            Sample::Duty(None) | Sample::InFlow(None) => encode_utf8("NaN"@),
            _ => encode_utf8(self.word()->Some_0),
        }
    }
}

impl Record {
    /// The arguments of the command that writes the record.
    pub open spec fn args(self) -> Seq<Seq<u8>> {
        seq![
            encode_utf8("XADD"@),
            encode_utf8(self.sample.log_of().name()),
            self.id.text(),
            encode_utf8("value"@),
            self.sample.text(),
        ]
    }

    /// The command that writes the record.
    pub fn command(&self) -> (cmd: redis::Cmd)
        ensures
            cmd_args(cmd) == self.args(),
    {
        let mut cmd = new_cmd();
        push_arg(&mut cmd, "XADD".as_bytes());
        push_arg(&mut cmd, self.sample.log().key().as_bytes());
        match self.id {
            Id::Auto => {
                push_arg(&mut cmd, "*".as_bytes());
            },
            Id::At(stamp) => {
                let mut text: Vec<u8> = Vec::new();
                put_decimal(&mut text, stamp);
                push_arg(&mut cmd, text.as_slice());
            },
        }
        push_arg(&mut cmd, field().as_bytes());
        match self.sample {
            Sample::Duty(Some(percent)) => {
                push_arg(&mut cmd, whole_text(percent).as_slice());
            },
            Sample::InFlow(Some(h)) => {
                push_arg(&mut cmd, hundredths_text(h).as_slice());
            },
            Sample::Duty(None) | Sample::InFlow(None) => {
                push_arg(&mut cmd, "NaN".as_bytes());
            },
            _ => {
                match self.sample.as_str() {
                    Some(word) => {
                        push_arg(&mut cmd, word.as_bytes());
                    },
                    None => {},
                }
            },
        }
        assert(cmd_args(cmd) =~= self.args());
        cmd
    }
}

/// The commands that write `records`, each by its arguments.
pub open spec fn commands(records: Seq<Record>) -> Seq<Seq<Seq<u8>>> {
    Seq::new(records.len(), |i: int| records[i].args())
}

/// The transaction that writes `records`, in order and as one.
pub fn transaction(records: &Vec<Record>) -> (pipe: redis::Pipeline)
    ensures
        pipe_atomic(pipe),
        pipe_cmds(pipe) == commands(records@),
{
    let mut pipe = new_pipe();
    make_atomic(&mut pipe);
    let mut i: usize = 0;
    while i < records.len()
        invariant
            i <= records.len(),
            pipe_atomic(pipe),
            pipe_cmds(pipe) == commands(records@.subrange(0, i as int)),
        decreases records.len() - i,
    {
        let cmd = records[i].command();
        push_cmd(&mut pipe, cmd);
        assert(commands(records@.subrange(0, i + 1)) =~= commands(
            records@.subrange(0, i as int),
        ).push(records@[i as int].args()));
        i += 1;
    }
    assert(records@.subrange(0, i as int) =~= records@);
    pipe
}

impl Action {
    /// What the action sends to the store: one command for a record, a
    /// transaction for the records of a cycle, nothing for the lamps.
    pub fn request(&self) -> (r: Option<Request>)
        ensures
            match *self {
                Action::Write(record) => r matches Some(Request::Single(cmd)) && cmd_args(cmd)
                    == record.args(),
                Action::WriteCycle { .. } => r matches Some(Request::Transaction(pipe))
                    && pipe_atomic(pipe) && pipe_cmds(pipe) == commands(self.entries()),
                Action::Show(_) => r is None,
            },
    {
        match self {
            Action::Write(record) => Some(Request::Single(record.command())),
            Action::WriteCycle { .. } => {
                let records = self.records();
                Some(Request::Transaction(transaction(&records)))
            },
            Action::Show(_) => None,
        }
    }
}

} // verus!
