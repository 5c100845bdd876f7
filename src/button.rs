//! Push button or dead-man switch on one input pin.
use vstd::prelude::*;
use crate::config::ButtonConfig;

verus! {

#[derive(Debug, Clone, Copy, PartialEq, Eq, Structural)]
pub struct Button {
    pub normally_open: bool,
}

impl Button {
    pub fn new(config: &ButtonConfig) -> (r: Button)
        ensures
            r.normally_open == config.normally_open,
    {
        Button { normally_open: config.normally_open }
    }

    /// Whether the button reads as actuated, given the level of its pin. A
    /// dead-man switch reads as actuated when it is released.
    pub fn read(&self, pin_high: bool) -> (r: bool)
        ensures
            r == (pin_high == self.normally_open),
    {
        if pin_high {
            self.normally_open
        } else {
            !self.normally_open
        }
    }
}

} // verus!
