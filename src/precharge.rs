//! Precharge of the high-voltage bus: the source isolation contactor is
//! closed, and the charge contactor follows only if the dead-man switch stays
//! engaged for the whole precharge duration. The pins and the clock are
//! handled outside; this module decides.
use vstd::prelude::*;

verus! {

#[derive(Debug, Clone, Copy, PartialEq, Eq, Structural)]
pub struct PrechargeConfig {
    pub charge_contactor_pin: u8,
    pub source_isolation_contactor_pin: u8,
    pub dead_mans_switch_pin: u8,
    /// Milliseconds.
    pub precharge_duration: u64,
}

/// State of the wait on the dead-man switch.
#[derive(Debug, Clone, Copy, PartialEq, Eq, Structural)]
pub enum DmsWait {
    /// Keep polling the switch.
    Waiting,
    /// The switch stayed engaged for the whole delay: close the charge contactor.
    Held,
    /// The switch was released: abort the precharge.
    Released,
}

/// One poll of the dead-man switch, `elapsed_ms` after the precharge began.
/// A released switch aborts, even on the first poll.
pub fn wait_dms(dms_low: bool, elapsed_ms: u64, delay_ms: u64) -> (r: DmsWait)
    ensures
        r == if dms_low {
            DmsWait::Released
        } else if elapsed_ms >= delay_ms {
            DmsWait::Held
        } else {
            DmsWait::Waiting
        },
{
    if dms_low {
        DmsWait::Released
    } else if elapsed_ms >= delay_ms {
        DmsWait::Held
    } else {
        DmsWait::Waiting
    }
}

} // verus!
