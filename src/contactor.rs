//! High-current contactor driven by one output pin.
use vstd::prelude::*;
use crate::config::ContactorConfig;

verus! {

#[derive(Debug, Clone, Copy, PartialEq, Eq, Structural)]
pub struct Contactor {
    pub normally_open: bool,
}

impl Contactor {
    pub fn initialize(config: &ContactorConfig) -> (r: Contactor)
        ensures
            r.normally_open == config.normally_open,
    {
        Contactor { normally_open: config.normally_open }
    }

    /// Level (high = `true`) to write on the pin to close the circuit.
    pub fn close_circuit(&self) -> (level: bool)
        ensures
            level == self.normally_open,
    {
        self.normally_open
    }

    /// Level (high = `true`) to write on the pin to open the circuit.
    pub fn open_circuit(&self) -> (level: bool)
        ensures
            level == !self.normally_open,
    {
        !self.normally_open
    }
}

} // verus!
