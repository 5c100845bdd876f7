//! Readings produced by the drivers, one variant per device class. Values are
//! in thousandths of their unit; `None` means no valid reading this cycle.
use vstd::prelude::*;

verus! {

/// Locations of the temperature probes, in polling order.
#[derive(Debug, Clone, Copy, PartialEq, Eq, Structural, Hash)]
pub enum TemperatureSensorName {
    H2Plate,
    Batteries,
    FuelCellControllers,
    H2Tanks,
    Extra,
}

/// One transaction of the battery gauge.
#[derive(Debug, Clone, Copy, PartialEq, Eq, Structural)]
pub struct BatteryGaugeData {
    /// Millivolts.
    pub voltage: i64,
    /// Milliamperes.
    pub current: i64,
    /// Thousandths of a percent of full charge.
    pub charge_level: i64,
}

/// One report line of a fuel cell controller.
#[derive(Debug, Clone, Copy, PartialEq, Eq, Structural)]
pub struct FuelCellData {
    /// Milli-degrees Celsius.
    pub temperature: Option<i64>,
    /// Millivolts.
    pub voltage: Option<i64>,
    /// Milliamperes.
    pub current: Option<i64>,
    /// Milliwatts.
    pub power: Option<i64>,
    /// Thousandths of the controller's energy unit.
    pub energy: Option<i64>,
}

/// One position fix.
#[derive(Debug, Clone, Copy, PartialEq, Eq, Structural)]
pub struct GpsData {
    /// Thousandths of the `hhmmss` time field.
    pub nmea_time: Option<i64>,
    /// Thousandths of a knot.
    pub speed_knots: Option<i64>,
    /// Thousandths of a degree.
    pub course_angle: Option<i64>,
    /// Millionths of a degree.
    pub latitude_deg: Option<i64>,
    /// Millionths of a degree.
    pub longitude_deg: Option<i64>,
}

/// A reading, tagged by the device class that produced it.
#[derive(Debug, Clone, Copy, PartialEq, Eq, Structural)]
pub enum SensorData {
    FuelCellA(Option<FuelCellData>),
    FuelCellB(Option<FuelCellData>),
    /// Milli-degrees Celsius.
    Temperature(TemperatureSensorName, Option<i64>),
    /// Millibar.
    HighPressureManometer(Option<i64>),
    LowPressureManometer(Option<i64>),
    Batteries(Option<BatteryGaugeData>),
    Gps(Option<GpsData>),
}

} // verus!
