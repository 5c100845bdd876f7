//! Valve actuator: a control output and an error input whose level also tells
//! the valve's position. The pins themselves are driven outside; this type
//! decides the levels and reads their meaning.
use vstd::prelude::*;
use crate::config::ActuatorConfig;

verus! {

#[derive(Debug, Clone, Copy, PartialEq, Eq, Structural)]
pub struct Actuator {
    pub normally_open: bool,
}

impl Actuator {
    pub fn initialize(config: &ActuatorConfig) -> (r: Actuator)
        ensures
            r.normally_open == config.normally_open,
    {
        Actuator { normally_open: config.normally_open }
    }

    /// Level (high = `true`) to write on the control pin to open the valve.
    pub fn open_valve(&self) -> (level: bool)
        ensures
            level == self.normally_open,
    {
        self.normally_open
    }

    /// Level (high = `true`) to write on the control pin to close the valve.
    pub fn close_valve(&self) -> (level: bool)
        ensures
            level == !self.normally_open,
    {
        !self.normally_open
    }

    /// Whether the valve is open, given the level of the error pin.
    pub fn is_open(&self, error_pin_high: bool) -> (r: bool)
        ensures
            r == (error_pin_high != self.normally_open),
    {
        if error_pin_high {
            !self.normally_open
        } else {
            self.normally_open
        }
    }

    /// Whether the valve reached its commanded position, given the level of the error pin.
    pub fn is_in_correct_position(&self, error_pin_high: bool) -> (r: bool)
        ensures
            r == !error_pin_high,
    {
        !error_pin_high
    }
}

} // verus!
