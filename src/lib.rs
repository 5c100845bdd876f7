//! Control core of a hydrogen fuel-cell boat: fault severity model, sensor
//! decoding and threshold checks, interlocked startup and shutdown sequencing,
//! polling decisions and the supervisory state machine.
//!
//! Physical quantities are carried as integers in thousandths of their unit
//! (milli-degrees Celsius, millibar, millivolts, milliamperes, ...).
use vstd::prelude::*;

pub mod message;
pub mod thresholds;
pub mod config;
pub mod sensor_data;
pub mod manometer;
pub mod actuator;
pub mod contactor;
pub mod button;
pub mod startup;
pub mod shutdown;
pub mod precharge;
pub mod telemetry;
pub mod boat;
pub mod sensor_thread;
pub mod battery;
pub mod text;
pub mod temperature;
pub mod fuel_cell;
pub mod gps;

verus! {

} // verus!
