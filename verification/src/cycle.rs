//! The pump's duty cycle.
//!
//! The sensor reports each time the pump goes on or off, with the time in
//! milliseconds. A cycle runs from one OFF to the next. Its duty is the share
//! of it during which the pump ran, and from the duty follows an estimate of
//! the water that came in. Before the first OFF nothing is known of where in a
//! cycle the pump is, so the first cycle that is reported is the one that
//! starts there.

use vstd::prelude::*;

verus! {

/// The capacity of the pump, in gallons per hour.
pub const GALLONS_PER_HOUR: u64 = 2680;

/// The whole number nearest to `n / d`, a half counting upwards.
pub open spec fn nearest(n: nat, d: nat) -> nat
    recommends
        d > 0,
{
    (2 * n + d) / (2 * d)
}

/// Whether `q` is the whole number nearest to `n / d`, a half counting
/// upwards, said without a division: `q - 1/2 <= n / d < q + 1/2`.
pub open spec fn is_nearest(n: nat, d: nat, q: nat) -> bool {
    2 * q * d - d <= 2 * n < 2 * q * d + d
}

/// The estimate of the in-flow that goes with a duty in percent: the
/// capacity of the pump scaled by the duty, `2680 * duty / 60`, to two decimal
/// places and counted in hundredths.
pub open spec fn in_flow_of(duty: nat) -> nat {
    (2 * (2680 * duty * 100) + 60) / 120
}

/// One whole number is nearest to `n / d`, and `nearest` gives it.
pub proof fn lemma_nearest_is_nearest(n: nat, d: nat, q: nat)
    requires
        d > 0,
    ensures
        is_nearest(n, d, q) <==> q == nearest(n, d),
{
    let r = nearest(n, d);
    assert(r * (2 * d) <= 2 * n + d < (r + 1) * (2 * d)) by (nonlinear_arith)
        requires
            d > 0,
            r == (2 * n + d) / (2 * d),
    ;
    assert(r * (2 * d) == 2 * r * d && (r + 1) * (2 * d) == 2 * r * d + 2 * d)
        by (nonlinear_arith);
    assert(is_nearest(n, d, r));
    if is_nearest(n, d, q) {
        assert(q == r) by (nonlinear_arith)
            requires
                d > 0,
                2 * q * d - d <= 2 * n < 2 * q * d + d,
                2 * r * d - d <= 2 * n < 2 * r * d + d,
        ;
    }
}

/// The in-flow is `GALLONS_PER_HOUR * duty / 60`, in hundredths and to the
/// nearest of them.
pub proof fn lemma_in_flow_is_nearest(duty: nat)
    ensures
        in_flow_of(duty) == nearest(GALLONS_PER_HOUR as nat * duty * 100, 60),
{
    assert(GALLONS_PER_HOUR as nat * duty * 100 == 2680 * duty * 100) by (nonlinear_arith)
        requires
            GALLONS_PER_HOUR == 2680,
    ;
}

/// A finished cycle, as two lengths of time in milliseconds, both measured
/// back from the OFF that ended it.
#[derive(Clone, Copy, Debug, PartialEq, Eq)]
pub struct Cycle {
    /// Since the pump went on: how long it ran.
    pub on_millis: u64,
    /// Since the OFF before: how long the whole cycle took.
    pub off_millis: u64,
}

/// What a finished cycle says of the pump. A cycle that took no time has
/// neither duty nor in-flow.
#[derive(Clone, Copy, Debug, PartialEq, Eq)]
pub struct DutyResult {
    /// The duty in percent.
    pub duty_percent: Option<u64>,
    /// The estimate of the in-flow, in hundredths.
    pub in_flow: Option<u64>,
}

impl Cycle {
    /// The pump ran within the cycle.
    pub open spec fn wf(self) -> bool {
        self.on_millis <= self.off_millis
    }

    /// The duty in percent: `on * 100 / off`, to the nearest whole number. A
    /// cycle that took no time has none.
    pub open spec fn duty(self) -> Option<u64>
        recommends
            self.wf(),
    {
        if self.off_millis == 0 {
            None
        } else {
            Some(nearest(100 * self.on_millis as nat, self.off_millis as nat) as u64)
        }
    }

    /// The estimate of the in-flow, in hundredths, for a cycle that has a
    /// duty.
    pub open spec fn in_flow(self) -> Option<u64>
        recommends
            self.wf(),
    {
        match self.duty() {
            Some(duty) => Some(in_flow_of(duty as nat) as u64),
            None => None,
        }
    }

    /// What the cycle says of the pump.
    pub open spec fn result(self) -> DutyResult
        recommends
            self.wf(),
    {
        DutyResult { duty_percent: self.duty(), in_flow: self.in_flow() }
    }

    /// Whether `duty` and `in_flow` are those of the cycle, said without a
    /// division by its length.
    pub open spec fn reports(self, duty: Option<u64>, in_flow: Option<u64>) -> bool {
        if self.off_millis == 0 {
            duty is None && in_flow is None
        } else {
            &&& duty matches Some(d)
            &&& in_flow matches Some(f)
            &&& is_nearest(100 * self.on_millis as nat, self.off_millis as nat, d as nat)
            &&& f == in_flow_of(d as nat)
        }
    }

    /// A duty is at most 100 percent, and the in-flow at most what goes with
    /// that.
    pub proof fn lemma_duty_bound(self)
        requires
            self.wf(),
            self.off_millis > 0,
        ensures
            nearest(100 * self.on_millis as nat, self.off_millis as nat) <= 100,
            self.duty() matches Some(d) && d <= 100,
            self.in_flow() matches Some(f) && f <= 446_667,
    {
        let on = self.on_millis as nat;
        let off = self.off_millis as nat;
        assert((2 * (100 * on) + off) / (2 * off) <= 100) by (nonlinear_arith)
            requires
                on <= off,
                off > 0,
        ;
    }

    /// What a cycle reports is its duty and its in-flow, and nothing else.
    pub proof fn lemma_reports(self, duty: Option<u64>, in_flow: Option<u64>)
        requires
            self.wf(),
        ensures
            self.reports(duty, in_flow) <==> duty == self.duty() && in_flow == self.in_flow(),
    {
        if self.off_millis > 0 {
            self.lemma_duty_bound();
            if duty is Some {
                lemma_nearest_is_nearest(
                    100 * self.on_millis as nat,
                    self.off_millis as nat,
                    duty->Some_0 as nat,
                );
            }
        }
    }

    /// The duty in percent.
    pub fn duty_percent(&self) -> (r: Option<u64>)
        requires
            self.wf(),
        ensures
            r == self.duty(),
            r is None <==> self.off_millis == 0,
            r matches Some(duty) ==> duty <= 100 && is_nearest(
                100 * self.on_millis as nat,
                self.off_millis as nat,
                duty as nat,
            ),
    {
        if self.off_millis == 0 {
            return None;
        }
        proof {
            self.lemma_duty_bound();
            lemma_nearest_is_nearest(
                100 * self.on_millis as nat,
                self.off_millis as nat,
                nearest(100 * self.on_millis as nat, self.off_millis as nat),
            );
        }
        let n: u128 = 2 * (100 * (self.on_millis as u128)) + self.off_millis as u128;
        let d: u128 = 2 * (self.off_millis as u128);
        Some((n / d) as u64)
    }

    /// The estimate of the in-flow, in hundredths.
    pub fn in_flow_hundredths(&self) -> (r: Option<u64>)
        requires
            self.wf(),
        ensures
            r == self.in_flow(),
            r is None <==> self.off_millis == 0,
            self.reports(self.duty(), r),
    {
        match self.duty_percent() {
            Some(duty) => {
                proof {
                    self.lemma_duty_bound();
                }
                Some((2 * (GALLONS_PER_HOUR * duty * 100) + 60) / 120)
            },
            None => None,
        }
    }
}

/// What is known of where the pump is in its cycle.
#[derive(Clone, Copy, Debug, PartialEq, Eq)]
pub enum State {
    /// Nothing yet: no OFF was seen.
    Unknown,
    /// The pump is off, since `off_time`.
    Off { off_time: u64 },
    /// The pump is on, since `on_time`; it last went off at `off_time`.
    On { off_time: u64, on_time: u64 },
}

impl State {
    /// The times are in the order in which the sensor gave them.
    pub open spec fn wf(self) -> bool {
        self matches State::On { off_time, on_time } ==> off_time <= on_time
    }

    /// Whether an event at `stamp` comes in order where it counts: an ON that
    /// follows an OFF, and an OFF that ends a cycle, are no older than what
    /// they follow. A repeat, and anything before the first OFF, is passed
    /// over whatever its time.
    pub open spec fn in_order(self, stamp: u64, pump_on: bool) -> bool {
        match self {
            State::Unknown => true,
            State::Off { off_time } => pump_on ==> off_time <= stamp,
            State::On { off_time, on_time } => !pump_on ==> on_time <= stamp,
        }
    }

    /// The state after an OFF at `stamp`: the pump is off since then, unless
    /// it was off already.
    pub open spec fn after_off(self, stamp: u64) -> State {
        match self {
            State::Off { off_time } => self,
            _ => State::Off { off_time: stamp },
        }
    }

    /// The cycle that an OFF at `stamp` ends: the one in which the pump is on.
    pub open spec fn ended_by(self, stamp: u64) -> Option<Cycle> {
        match self {
            State::On { off_time, on_time } => Some(
                Cycle {
                    on_millis: (stamp - on_time) as u64,
                    off_millis: (stamp - off_time) as u64,
                },
            ),
            _ => None,
        }
    }

    /// What an OFF at `stamp` tells of the pump: the duty and the in-flow of
    /// the cycle that it ends, if it ends one.
    pub open spec fn told_by(self, stamp: u64) -> Option<DutyResult> {
        match self.ended_by(stamp) {
            Some(cycle) => Some(cycle.result()),
            None => None,
        }
    }

    /// The state after an ON at `stamp`: the pump is on since then, if it was
    /// off.
    pub open spec fn after_on(self, stamp: u64) -> State {
        match self {
            State::Off { off_time } => State::On { off_time, on_time: stamp },
            _ => self,
        }
    }

    /// The state at the start of a session.
    pub fn new() -> (s: State)
        ensures
            s == State::Unknown,
            s.wf(),
    {
        State::Unknown
    }

    /// Whether an event at `stamp` comes in order where it counts.
    pub fn takes(&self, stamp: u64, pump_on: bool) -> (b: bool)
        ensures
            b == self.in_order(stamp, pump_on),
    {
        match *self {
            State::Unknown => true,
            State::Off { off_time } => !pump_on || off_time <= stamp,
            State::On { off_time: _, on_time } => pump_on || on_time <= stamp,
        }
    }

    /// The pump went off at `stamp`.
    ///
    /// The first OFF only gives the machine its bearings. An OFF while the
    /// pump is off already is a repeat and changes nothing. An OFF while the
    /// pump is on ends a cycle, whose duty and in-flow are returned: its time
    /// has to be in order, no earlier than when the pump went on.
    pub fn to_off(&mut self, stamp: u64) -> (r: Option<DutyResult>)
        requires
            old(self).wf(),
            old(self).in_order(stamp, false),
        ensures
            *final(self) == old(self).after_off(stamp),
            r == old(self).told_by(stamp),
            *old(self) is Unknown ==> r is None && *final(self) == (State::Off { off_time: stamp }),
            *old(self) is Off ==> r is None && *final(self) == *old(self),
            *old(self) is On ==> r is Some && *final(self) == (State::Off { off_time: stamp }),
            *old(self) matches State::On { off_time, on_time } ==> r matches Some(told) && (Cycle {
                on_millis: (stamp - on_time) as u64,
                off_millis: (stamp - off_time) as u64,
            }).reports(told.duty_percent, told.in_flow),
            final(self).wf(),
    {
        match *self {
            State::Unknown => {
                *self = State::Off { off_time: stamp };
                None
            },
            State::Off { off_time: _ } => None,
            State::On { off_time, on_time } => {
                let cycle = Cycle { on_millis: stamp - on_time, off_millis: stamp - off_time };
                let told = DutyResult {
                    duty_percent: cycle.duty_percent(),
                    in_flow: cycle.in_flow_hundredths(),
                };
                *self = State::Off { off_time: stamp };
                Some(told)
            },
        }
    }

    /// The pump went on at `stamp`. Tells whether that changed the state: an
    /// ON before the first OFF is passed over, and so is one while the pump is
    /// on already.
    pub fn to_on(&mut self, stamp: u64) -> (changed: bool)
        ensures
            *final(self) == old(self).after_on(stamp),
            changed == (*old(self) is Off),
            *old(self) matches State::Off { off_time } ==> *final(self) == (State::On {
                off_time,
                on_time: stamp,
            }),
            !(*old(self) is Off) ==> *final(self) == *old(self),
            old(self).wf() && old(self).in_order(stamp, true) ==> final(self).wf(),
    {
        match *self {
            State::Unknown => false,
            State::Off { off_time } => {
                *self = State::On { off_time, on_time: stamp };
                true
            },
            State::On { .. } => false,
        }
    }
}

} // verus!
