//! Interlocked startup procedure. It is a sequencer: each call of `start` takes
//! what the procedure observes now and returns the valve commands to carry out
//! before the next observation, and the lifecycle fault to report once it ends.
//! The valve motion is guarded: unless the guard was committed, a procedure
//! that stops after moving a valve puts both valves back as they were.
use vstd::prelude::*;
use crate::message::Exception;

verus! {

/// Time for a valve to settle before its position input is trusted.
pub const VALVE_SETTLE_MS: u64 = 2000;

/// Highest hydrogen-plate temperature at which startup may begin, in milli-degrees Celsius.
pub const MAX_H2_PLATE_TEMPERATURE: i64 = 64_000;

/// Highest high-side pressure at which startup may begin, in millibar.
pub const MAX_HIGH_PRESSURE: i64 = 300_000;

/// Errors of the procedures, with a description for the operator.
#[derive(Debug, Clone)]
pub enum Error {
    StartUp(String),
    ShutDown(String),
    Critical(String),
    Warning(String),
}

/// Latest readings that the procedure gates on, in thousandths of their unit.
#[derive(Debug, Clone, Copy, PartialEq, Eq, Structural)]
pub struct StartupData {
    pub h2_plate_temperature: Option<i64>,
    pub high_pressure: Option<i64>,
    pub low_pressure: Option<i64>,
}

impl StartupData {
    pub fn new() -> (r: StartupData)
        ensures
            r.h2_plate_temperature is None,
            r.high_pressure is None,
            r.low_pressure is None,
    {
        StartupData { h2_plate_temperature: None, high_pressure: None, low_pressure: None }
    }
}

/// Ceilings that the readings must stay under.
#[derive(Debug, Clone, Copy, PartialEq, Eq, Structural)]
pub struct StartupLimits {
    pub max_h2_plate_temperature: i64,
    pub max_high_pressure: i64,
    pub max_low_pressure: i64,
}

impl StartupLimits {
    /// The fixed temperature and high-side ceilings, with the low-side
    /// ceiling taken from the configuration (the low-pressure manometer's
    /// critical pressure).
    pub fn standard(max_low_pressure: i64) -> (r: StartupLimits)
        ensures
            r.max_h2_plate_temperature == MAX_H2_PLATE_TEMPERATURE,
            r.max_high_pressure == MAX_HIGH_PRESSURE,
            r.max_low_pressure == max_low_pressure,
    {
        StartupLimits {
            max_h2_plate_temperature: MAX_H2_PLATE_TEMPERATURE,
            max_high_pressure: MAX_HIGH_PRESSURE,
            max_low_pressure,
        }
    }
}

/// What the position input of a valve reports.
#[derive(Debug, Clone, Copy, PartialEq, Eq, Structural)]
pub struct ValveStatus {
    pub open: bool,
    pub in_position: bool,
}

/// What the procedure observes before each step.
#[derive(Debug, Clone, Copy, PartialEq, Eq, Structural)]
pub struct StartupInputs {
    pub dms_engaged: bool,
    pub data: StartupData,
    pub valve1: ValveStatus,
    pub valve2: ValveStatus,
}

#[derive(Debug, Clone, Copy, PartialEq, Eq, Structural)]
pub enum Valve {
    Mv01,
    Mv02,
}

/// Drive a valve open or closed, then wait `settle_ms` milliseconds.
#[derive(Debug, Clone, Copy, PartialEq, Eq, Structural)]
pub struct ValveCommand {
    pub valve: Valve,
    pub open: bool,
    pub settle_ms: u64,
}

#[derive(Debug, Clone, Copy, PartialEq, Eq, Structural)]
pub enum StartupPhase {
    /// Nothing done yet: check the preconditions and the starting configuration.
    Gate,
    /// Valve #2 was commanded closed.
    Valve2Closed,
    /// Valve #1 was commanded open.
    Valve1Opened,
    /// The procedure has reported its outcome.
    Finished,
}

/// Scoped commit over the valve motion: while it is armed, ending the
/// procedure closes valve #1 and then opens valve #2 again.
#[derive(Debug, Clone, Copy, PartialEq, Eq, Structural)]
pub struct ValveStarter {
    pub reset: bool,
}

/// The commands that put the valves back in their starting configuration.
pub open spec fn rollback_commands() -> Seq<ValveCommand> {
    seq![
        ValveCommand { valve: Valve::Mv01, open: false, settle_ms: VALVE_SETTLE_MS },
        ValveCommand { valve: Valve::Mv02, open: true, settle_ms: 0 },
    ]
}

impl ValveStarter {
    /// An armed guard.
    pub fn start() -> (r: ValveStarter)
        ensures
            r.reset,
    {
        ValveStarter { reset: true }
    }

    /// Marks the valve motion as successful: the guard no longer rolls back.
    pub fn ok(&mut self)
        ensures
            !final(self).reset,
    {
        self.reset = false;
    }

    /// What the guard does when its scope ends.
    pub open spec fn release_spec(self) -> Seq<ValveCommand> {
        if self.reset {
            rollback_commands()
        } else {
            seq![]
        }
    }

    pub fn release(&self) -> (r: Vec<ValveCommand>)
        ensures
            r@ == self.release_spec(),
    {
        if self.reset {
            let r = vec![
                ValveCommand { valve: Valve::Mv01, open: false, settle_ms: VALVE_SETTLE_MS },
                ValveCommand { valve: Valve::Mv02, open: true, settle_ms: 0 },
            ];
            assert(r@ =~= rollback_commands());
            r
        } else {
            Vec::new()
        }
    }
}

/// Dead-man switch engaged, and both gating readings present and under their ceilings.
pub open spec fn preconditions_hold(limits: StartupLimits, i: StartupInputs) -> bool {
    &&& i.dms_engaged
    &&& i.data.h2_plate_temperature matches Some(t) && t <= limits.max_h2_plate_temperature
    &&& i.data.high_pressure matches Some(p) && p <= limits.max_high_pressure
}

/// Valve #1 closed and valve #2 open.
pub open spec fn starting_configuration(i: StartupInputs) -> bool {
    !i.valve1.open && i.valve2.open
}

/// After valve #2 was closed: it is in position, and both valves are closed.
pub open spec fn first_check(i: StartupInputs) -> bool {
    i.valve2.in_position && !i.valve1.open && !i.valve2.open
}

/// After valve #1 was opened: it is in position, it is open and valve #2 is still closed.
pub open spec fn second_check(i: StartupInputs) -> bool {
    i.valve1.in_position && i.valve1.open && !i.valve2.open
}

/// The low-side pressure is present and under its ceiling.
pub open spec fn low_pressure_ok(limits: StartupLimits, i: StartupInputs) -> bool {
    i.data.low_pressure matches Some(p) && p <= limits.max_low_pressure
}

/// The last state demanded of a valve by a run of commands, if any.
pub open spec fn last_demand(cmds: Seq<ValveCommand>, valve: Valve) -> Option<bool>
    decreases cmds.len(),
{
    if cmds.len() == 0 {
        None
    } else if cmds.last().valve == valve {
        Some(cmds.last().open)
    } else {
        last_demand(cmds.drop_last(), valve)
    }
}

pub struct BoatStarter {
    pub limits: StartupLimits,
    pub phase: StartupPhase,
    pub guard: ValveStarter,
}

/// One step of the procedure: the next phase, the guard, the commands, and
/// the outcome reported if the procedure ends here.
pub open spec fn startup_step(
    limits: StartupLimits,
    phase: StartupPhase,
    guard: ValveStarter,
    i: StartupInputs,
) -> (StartupPhase, ValveStarter, Seq<ValveCommand>, Option<Exception>) {
    let fail = (StartupPhase::Finished, ValveStarter { reset: false }, guard.release_spec(), Some(Exception::InfoStartupFailed));
    match phase {
        StartupPhase::Gate => {
            if preconditions_hold(limits, i) && starting_configuration(i) {
                (
                    StartupPhase::Valve2Closed,
                    ValveStarter { reset: true },
                    seq![ValveCommand { valve: Valve::Mv02, open: false, settle_ms: VALVE_SETTLE_MS }],
                    None,
                )
            } else {
                fail
            }
        },
        StartupPhase::Valve2Closed => {
            if first_check(i) {
                (
                    StartupPhase::Valve1Opened,
                    guard,
                    seq![ValveCommand { valve: Valve::Mv01, open: true, settle_ms: VALVE_SETTLE_MS }],
                    None,
                )
            } else {
                fail
            }
        },
        StartupPhase::Valve1Opened => {
            if second_check(i) && low_pressure_ok(limits, i) {
                (StartupPhase::Finished, ValveStarter { reset: false }, seq![], Some(Exception::InfoStartupSuccess))
            } else {
                fail
            }
        },
        StartupPhase::Finished => (StartupPhase::Finished, guard, seq![], None),
    }
}

impl BoatStarter {
    /// The guard is armed exactly while a valve may have moved.
    pub open spec fn wf(self) -> bool {
        self.guard.reset <==> (self.phase == StartupPhase::Valve2Closed || self.phase == StartupPhase::Valve1Opened)
    }

    pub open spec fn step_spec(self, i: StartupInputs) -> (BoatStarter, Seq<ValveCommand>, Option<Exception>) {
        let (phase, guard, cmds, report) = startup_step(self.limits, self.phase, self.guard, i);
        (BoatStarter { limits: self.limits, phase, guard }, cmds, report)
    }

    pub fn new(limits: StartupLimits) -> (r: BoatStarter)
        ensures
            r.limits == limits,
            r.phase == StartupPhase::Gate,
            !r.guard.reset,
            r.wf(),
    {
        BoatStarter { limits, phase: StartupPhase::Gate, guard: ValveStarter { reset: false } }
    }

    pub fn is_finished(&self) -> (r: bool)
        ensures
            r == (self.phase == StartupPhase::Finished),
    {
        match self.phase {
            StartupPhase::Finished => true,
            _ => false,
        }
    }

    fn preconditions(&self, i: &StartupInputs) -> (r: bool)
        ensures
            r == preconditions_hold(self.limits, *i),
    {
        if !i.dms_engaged {
            return false;
        }
        match i.data.h2_plate_temperature {
            Some(t) => if t > self.limits.max_h2_plate_temperature {
                return false;
            },
            None => return false,
        }
        match i.data.high_pressure {
            Some(p) => p <= self.limits.max_high_pressure,
            None => false,
        }
    }

    /// Ends the procedure in failure: the guard rolls the valves back if armed.
    fn fail(&mut self) -> (r: (Vec<ValveCommand>, Option<Exception>))
        ensures
            r.0@ == old(self).guard.release_spec(),
            r.1 == Some(Exception::InfoStartupFailed),
            final(self).phase == StartupPhase::Finished,
            !final(self).guard.reset,
            final(self).limits == old(self).limits,
    {
        let cmds = self.guard.release();
        self.guard = ValveStarter { reset: false };
        self.phase = StartupPhase::Finished;
        (cmds, Some(Exception::InfoStartupFailed))
    }

    /// Advances the procedure on what it observes now. The outcome is
    /// reported exactly once, on the step that finishes the procedure.
    pub fn start(&mut self, i: &StartupInputs) -> (r: (Vec<ValveCommand>, Option<Exception>))
        requires
            old(self).wf(),
        ensures
            (*final(self), r.0@, r.1) == old(self).step_spec(*i),
            final(self).wf(),
            r.1 is Some <==> (old(self).phase != StartupPhase::Finished && final(self).phase == StartupPhase::Finished),
    {
        match self.phase {
            StartupPhase::Gate => {
                if self.preconditions(i) && !i.valve1.open && i.valve2.open {
                    self.guard = ValveStarter::start();
                    self.phase = StartupPhase::Valve2Closed;
                    let cmds = vec![ValveCommand { valve: Valve::Mv02, open: false, settle_ms: VALVE_SETTLE_MS }];
                    assert(cmds@ =~= seq![ValveCommand { valve: Valve::Mv02, open: false, settle_ms: VALVE_SETTLE_MS }]);
                    (cmds, None)
                } else {
                    self.fail()
                }
            },
            StartupPhase::Valve2Closed => {
                if i.valve2.in_position && !i.valve1.open && !i.valve2.open {
                    self.phase = StartupPhase::Valve1Opened;
                    let cmds = vec![ValveCommand { valve: Valve::Mv01, open: true, settle_ms: VALVE_SETTLE_MS }];
                    assert(cmds@ =~= seq![ValveCommand { valve: Valve::Mv01, open: true, settle_ms: VALVE_SETTLE_MS }]);
                    (cmds, None)
                } else {
                    self.fail()
                }
            },
            StartupPhase::Valve1Opened => {
                let low_ok = match i.data.low_pressure {
                    Some(p) => p <= self.limits.max_low_pressure,
                    None => false,
                };
                if i.valve1.in_position && i.valve1.open && !i.valve2.open && low_ok {
                    self.guard.ok();
                    self.phase = StartupPhase::Finished;
                    let cmds: Vec<ValveCommand> = Vec::new();
                    assert(cmds@ =~= seq![]);
                    (cmds, Some(Exception::InfoStartupSuccess))
                } else {
                    self.fail()
                }
            },
            StartupPhase::Finished => {
                let cmds: Vec<ValveCommand> = Vec::new();
                assert(cmds@ =~= seq![]);
                (cmds, None)
            },
        }
    }
}

/// The procedure after it observed each of `ins` in turn, and the outcomes
/// it reported on the way.
pub open spec fn startup_run(s: BoatStarter, ins: Seq<StartupInputs>) -> (BoatStarter, Seq<Exception>)
    decreases ins.len(),
{
    if ins.len() == 0 {
        (s, seq![])
    } else {
        let (s1, reports) = startup_run(s, ins.drop_last());
        let (s2, _cmds, report) = s1.step_spec(ins.last());
        (
            s2,
            match report {
                Some(e) => reports.push(e),
                None => reports,
            },
        )
    }
}

/// Whatever the procedure observes, an attempt reports at most one outcome:
/// one once it has finished, none before; a failed attempt therefore never
/// also reports success.
pub proof fn lemma_one_report_per_attempt(limits: StartupLimits, ins: Seq<StartupInputs>)
    ensures
        ({
            let s0 = BoatStarter { limits, phase: StartupPhase::Gate, guard: ValveStarter { reset: false } };
            let (s, reports) = startup_run(s0, ins);
            &&& s.wf()
            &&& reports.len() == (if s.phase == StartupPhase::Finished {
                1int
            } else {
                0int
            })
            &&& reports.len() == 1 ==> (reports[0] == Exception::InfoStartupFailed || reports[0]
                == Exception::InfoStartupSuccess)
        }),
    decreases ins.len(),
{
    if ins.len() > 0 {
        lemma_one_report_per_attempt(limits, ins.drop_last());
    }
}

/// When the check after opening valve #1 fails, the attempt ends with valve
/// #1 demanded closed and valve #2 demanded open, and reports exactly one
/// fault, `InfoStartupFailed`: none before, and none on any later step.
pub proof fn lemma_second_check_failure_rolls_back(
    limits: StartupLimits,
    i0: StartupInputs,
    i1: StartupInputs,
    i2: StartupInputs,
)
    requires
        preconditions_hold(limits, i0),
        starting_configuration(i0),
        first_check(i1),
        !second_check(i2),
    ensures
        ({
            let s0 = BoatStarter { limits, phase: StartupPhase::Gate, guard: ValveStarter { reset: false } };
            let (s1, c0, f0) = s0.step_spec(i0);
            let (s2, c1, f1) = s1.step_spec(i1);
            let (s3, c2, f2) = s2.step_spec(i2);
            let cmds = c0 + c1 + c2;
            &&& last_demand(cmds, Valve::Mv01) == Some(false)
            &&& last_demand(cmds, Valve::Mv02) == Some(true)
            &&& f0 is None && f1 is None
            &&& f2 == Some(Exception::InfoStartupFailed)
            &&& s3.phase == StartupPhase::Finished
            &&& forall|later: StartupInputs| (#[trigger] s3.step_spec(later)).2 is None
        }),
{
    let s0 = BoatStarter { limits, phase: StartupPhase::Gate, guard: ValveStarter { reset: false } };
    let (s1, c0, f0) = s0.step_spec(i0);
    let (s2, c1, f1) = s1.step_spec(i1);
    let (s3, c2, f2) = s2.step_spec(i2);
    let cmds = c0 + c1 + c2;
    assert(cmds.len() == 4);
    assert(cmds.drop_last().drop_last() =~= c0 + c1);
    assert(cmds.drop_last() =~= c0 + c1 + seq![c2[0]]);
    assert(cmds.last() == c2[1]);
    assert(last_demand(cmds, Valve::Mv02) == Some(true));
    assert(cmds.drop_last().last() == c2[0]);
    assert(last_demand(cmds.drop_last(), Valve::Mv01) == Some(false));
}

} // verus!
