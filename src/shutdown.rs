//! Interlocked shutdown procedure, the mirror of startup: it opens the charge
//! and then the source contactor, runs the fuel cells' shutdown handshake and
//! cuts their controller relays, then runs the valve sequence in reverse.
//! Every command it gives opens a circuit or moves a valve back toward its
//! resting configuration, and valve #2 is only opened once valve #1 is
//! confirmed closed, so stopping early never leaves more open or energized
//! than before.
use vstd::prelude::*;
use crate::fuel_cell::FuelCellName;
use crate::message::Exception;
use crate::startup::{Valve, ValveCommand, ValveStatus, VALVE_SETTLE_MS};

verus! {

#[derive(Debug, Clone, Copy, PartialEq, Eq, Structural)]
pub enum ContactorId {
    Charge,
    SourceIsolation,
    FuelCellARelay,
    FuelCellBRelay,
}

#[derive(Debug, Clone, Copy, PartialEq, Eq, Structural)]
pub enum ShutdownCommand {
    /// Open (de-energize) a contactor or relay.
    OpenContactor(ContactorId),
    /// Run a fuel cell's shutdown handshake; its outcome is observed next.
    StopFuelCell(FuelCellName),
    Valve(ValveCommand),
}

#[derive(Debug, Clone, Copy, PartialEq, Eq, Structural)]
pub enum ShutdownPhase {
    Begin,
    FuelCellsStopping,
    Valve1Closing,
    Valve2Opening,
    Finished,
}

/// What the procedure observes before each step.
#[derive(Debug, Clone, Copy, PartialEq, Eq, Structural)]
pub struct ShutdownInputs {
    pub fuel_cell_a_off: bool,
    pub fuel_cell_b_off: bool,
    pub valve1: ValveStatus,
    pub valve2: ValveStatus,
}

pub open spec fn shutdown_step(phase: ShutdownPhase, i: ShutdownInputs) -> (ShutdownPhase, Seq<ShutdownCommand>, Option<Exception>) {
    let fail = (ShutdownPhase::Finished, Seq::<ShutdownCommand>::empty(), Some(Exception::InfoShutdownFailed));
    match phase {
        ShutdownPhase::Begin => (
            ShutdownPhase::FuelCellsStopping,
            seq![
                ShutdownCommand::OpenContactor(ContactorId::Charge),
                ShutdownCommand::OpenContactor(ContactorId::SourceIsolation),
                ShutdownCommand::StopFuelCell(FuelCellName::A),
                ShutdownCommand::StopFuelCell(FuelCellName::B),
            ],
            None,
        ),
        ShutdownPhase::FuelCellsStopping => if i.fuel_cell_a_off && i.fuel_cell_b_off {
            (
                ShutdownPhase::Valve1Closing,
                seq![
                    ShutdownCommand::OpenContactor(ContactorId::FuelCellARelay),
                    ShutdownCommand::OpenContactor(ContactorId::FuelCellBRelay),
                    ShutdownCommand::Valve(ValveCommand { valve: Valve::Mv01, open: false, settle_ms: VALVE_SETTLE_MS }),
                ],
                None,
            )
        } else {
            fail
        },
        ShutdownPhase::Valve1Closing => if i.valve1.in_position && !i.valve1.open {
            (
                ShutdownPhase::Valve2Opening,
                seq![ShutdownCommand::Valve(ValveCommand { valve: Valve::Mv02, open: true, settle_ms: VALVE_SETTLE_MS })],
                None,
            )
        } else {
            fail
        },
        ShutdownPhase::Valve2Opening => if i.valve2.in_position && i.valve2.open && !i.valve1.open {
            (ShutdownPhase::Finished, Seq::<ShutdownCommand>::empty(), Some(Exception::InfoShutdownSuccess))
        } else {
            fail
        },
        ShutdownPhase::Finished => (ShutdownPhase::Finished, Seq::<ShutdownCommand>::empty(), None),
    }
}

/// Some command of `cmds` opens valve #2.
pub open spec fn opens_valve2(cmds: Seq<ShutdownCommand>) -> bool {
    exists|k: int| 0 <= k < cmds.len() && #[trigger] cmds[k] == ShutdownCommand::Valve(
        ValveCommand { valve: Valve::Mv02, open: true, settle_ms: VALVE_SETTLE_MS },
    )
}

pub struct BoatStopper {
    pub phase: ShutdownPhase,
}

impl BoatStopper {
    pub fn new() -> (r: BoatStopper)
        ensures
            r.phase == ShutdownPhase::Begin,
    {
        BoatStopper { phase: ShutdownPhase::Begin }
    }

    pub fn is_finished(&self) -> (r: bool)
        ensures
            r == (self.phase == ShutdownPhase::Finished),
    {
        match self.phase {
            ShutdownPhase::Finished => true,
            _ => false,
        }
    }

    /// Advances the procedure on what it observes now. The outcome is
    /// reported exactly once, on the step that finishes the procedure, and
    /// valve #2 is opened only after valve #1 was seen closed in position.
    pub fn stop(&mut self, i: &ShutdownInputs) -> (r: (Vec<ShutdownCommand>, Option<Exception>))
        ensures
            (final(self).phase, r.0@, r.1) == shutdown_step(old(self).phase, *i),
            r.1 is Some <==> (old(self).phase != ShutdownPhase::Finished && final(self).phase == ShutdownPhase::Finished),
            opens_valve2(r.0@) ==> i.valve1.in_position && !i.valve1.open,
    {
        match self.phase {
            ShutdownPhase::Begin => {
                self.phase = ShutdownPhase::FuelCellsStopping;
                let cmds = vec![
                    ShutdownCommand::OpenContactor(ContactorId::Charge),
                    ShutdownCommand::OpenContactor(ContactorId::SourceIsolation),
                    ShutdownCommand::StopFuelCell(FuelCellName::A),
                    ShutdownCommand::StopFuelCell(FuelCellName::B),
                ];
                assert(cmds@ =~= shutdown_step(ShutdownPhase::Begin, *i).1);
                (cmds, None)
            },
            ShutdownPhase::FuelCellsStopping => {
                if i.fuel_cell_a_off && i.fuel_cell_b_off {
                    self.phase = ShutdownPhase::Valve1Closing;
                    let cmds = vec![
                        ShutdownCommand::OpenContactor(ContactorId::FuelCellARelay),
                        ShutdownCommand::OpenContactor(ContactorId::FuelCellBRelay),
                        ShutdownCommand::Valve(ValveCommand { valve: Valve::Mv01, open: false, settle_ms: VALVE_SETTLE_MS }),
                    ];
                    assert(cmds@ =~= shutdown_step(ShutdownPhase::FuelCellsStopping, *i).1);
                    (cmds, None)
                } else {
                    self.phase = ShutdownPhase::Finished;
                    (Vec::new(), Some(Exception::InfoShutdownFailed))
                }
            },
            ShutdownPhase::Valve1Closing => {
                if i.valve1.in_position && !i.valve1.open {
                    self.phase = ShutdownPhase::Valve2Opening;
                    let cmds = vec![
                        ShutdownCommand::Valve(ValveCommand { valve: Valve::Mv02, open: true, settle_ms: VALVE_SETTLE_MS }),
                    ];
                    assert(cmds@ =~= shutdown_step(ShutdownPhase::Valve1Closing, *i).1);
                    (cmds, None)
                } else {
                    self.phase = ShutdownPhase::Finished;
                    (Vec::new(), Some(Exception::InfoShutdownFailed))
                }
            },
            ShutdownPhase::Valve2Opening => {
                self.phase = ShutdownPhase::Finished;
                if i.valve2.in_position && i.valve2.open && !i.valve1.open {
                    (Vec::new(), Some(Exception::InfoShutdownSuccess))
                } else {
                    (Vec::new(), Some(Exception::InfoShutdownFailed))
                }
            },
            ShutdownPhase::Finished => (Vec::new(), None),
        }
    }
}

} // verus!
