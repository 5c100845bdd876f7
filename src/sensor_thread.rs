//! Decisions of a polling thread. The thread itself, its channels and its
//! sleep live outside; each iteration asks this module what to do next and
//! what to send.
use vstd::prelude::*;
use crate::message::{Exception, Message, Name};
use crate::sensor_data::SensorData;

verus! {

/// Shortest time between two reads of one device, in milliseconds.
pub const MIN_THREAD_DELAY_MS: u64 = 500;

/// What one loop iteration does after checking the stop flag and the connection.
#[derive(Debug, Clone, Copy, PartialEq, Eq, Structural)]
pub enum CycleStep {
    /// The stop flag is set: leave the loop.
    Exit,
    /// The device is not connected: try to initialize it, without reading.
    Initialize,
    /// The device is connected: read it.
    Read,
}

/// Bookkeeping of one polling thread: its device, and whether its loop was spawned.
#[derive(Debug, Clone, Copy, PartialEq, Eq, Structural)]
pub struct SensorThread {
    pub device_name: Name,
    pub started: bool,
}

impl SensorThread {
    pub fn new(device_name: Name) -> (r: SensorThread)
        ensures
            r.device_name == device_name,
            !r.started,
    {
        SensorThread { device_name, started: false }
    }

    /// The thread after a call of `start`, and whether that call spawns the loop.
    pub open spec fn start_spec(self) -> (SensorThread, bool) {
        (SensorThread { started: true, ..self }, !self.started)
    }

    /// Whether to spawn the loop now: only on the first call.
    pub fn start(&mut self) -> (spawn: bool)
        ensures
            (*final(self), spawn) == old(self).start_spec(),
    {
        let spawn = !self.started;
        self.started = true;
        spawn
    }

    /// True if the loop was never started or has exited.
    pub fn is_stopped(&self, loop_finished: bool) -> (r: bool)
        ensures
            r == (!self.started || loop_finished),
    {
        if self.started {
            loop_finished
        } else {
            true
        }
    }

    /// The first decision of an iteration.
    pub fn begin_cycle(&self, stop_requested: bool, connected: bool) -> (r: CycleStep)
        ensures
            r == (if stop_requested {
                CycleStep::Exit
            } else if connected {
                CycleStep::Read
            } else {
                CycleStep::Initialize
            }),
    {
        if stop_requested {
            CycleStep::Exit
        } else if connected {
            CycleStep::Read
        } else {
            CycleStep::Initialize
        }
    }

    /// The fault to send after an initialization attempt: `InfoConnected`
    /// when the device is now connected.
    pub fn after_initialize(&self, connected: bool) -> (r: Option<Message>)
        ensures
            connected <==> r is Some,
            r matches Some(m) ==> m.origin() == self.device_name && m.kind() == Exception::InfoConnected
                && m.display_timeout() is None,
    {
        if connected {
            Some(Message::new(self.device_name, Exception::InfoConnected))
        } else {
            None
        }
    }

    /// What to send after a read: the reading always, and the fault, if any,
    /// tagged with this thread's device.
    pub fn after_read(&self, read: (SensorData, Option<Exception>)) -> (r: (SensorData, Option<Message>))
        ensures
            r.0 == read.0,
            read.1 is Some <==> r.1 is Some,
            r.1 matches Some(m) ==> m.origin() == self.device_name && m.kind() == read.1->Some_0
                && m.display_timeout() is None,
    {
        let (data, fault) = read;
        match fault {
            Some(e) => (data, Some(Message::new(self.device_name, e))),
            None => (data, None),
        }
    }
}

/// How long to sleep after an iteration that took `elapsed_ms`.
pub fn remaining_delay(elapsed_ms: u64) -> (r: u64)
    ensures
        r == (if elapsed_ms < MIN_THREAD_DELAY_MS {
            MIN_THREAD_DELAY_MS - elapsed_ms
        } else {
            0
        }),
{
    if elapsed_ms < MIN_THREAD_DELAY_MS {
        MIN_THREAD_DELAY_MS - elapsed_ms
    } else {
        0
    }
}

/// Starting a polling thread twice spawns its loop at most once, and the
/// second call never spawns.
pub proof fn lemma_start_is_idempotent(t: SensorThread)
    ensures
        ({
            let (t1, spawn1) = t.start_spec();
            let (t2, spawn2) = t1.start_spec();
            &&& !spawn2
            &&& t2 == t1
            &&& spawn1 <==> !t.started
        }),
{
}

} // verus!
