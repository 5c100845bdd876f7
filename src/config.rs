//! Typed configuration handed to the devices at construction time. Limits are
//! in thousandths of their unit.
use vstd::prelude::*;
use crate::sensor_data::TemperatureSensorName;

verus! {

/// Buttons are normally open unless the configuration says otherwise.
pub fn default_true() -> (r: bool)
    ensures
        r,
{
    true
}

#[derive(Debug, Clone, Copy)]
pub struct ContactorConfig {
    pub pin: u8,
    pub normally_open: bool,
}

#[derive(Debug, Clone)]
pub struct SerialConfig {
    pub port: String,
    pub baudrate: u32,
}

#[derive(Debug, Clone)]
pub struct FuelCellConfig {
    pub serial: SerialConfig,
    /// Milli-degrees Celsius.
    pub warn_temperature: i64,
    pub alert_temperature: i64,
    pub critical_temperature: i64,
}

#[derive(Debug, Clone, Copy)]
pub struct ManometerConfig {
    pub channel: u8,
    /// Full-scale pressure, in millibar.
    pub max_bar: u32,
    /// Largest summed change over the last two transitions, in millibar.
    pub max_delta: i64,
    /// Millibar.
    pub warn_pressure: i64,
    pub alert_pressure: i64,
    pub critical_pressure: i64,
}

#[derive(Debug, Clone, Copy)]
pub struct ActuatorConfig {
    pub control_pin: u8,
    pub error_pin: u8,
    pub normally_open: bool,
}

#[derive(Debug, Clone, Copy)]
pub struct TemperatureConfig {
    pub name: TemperatureSensorName,
    pub address: u64,
    /// Milli-degrees Celsius.
    pub warn: i64,
    pub alert: i64,
    pub max: i64,
}

#[derive(Debug, Clone, Copy)]
pub struct BatteryGaugeConfig {
    pub i2c_address: u8,
    /// Thousandths of a percent of full charge.
    pub warning_level: i64,
    pub alert_level: i64,
    pub critical_level: i64,
}

#[derive(Debug, Clone, Copy)]
pub struct AccelerometerConfig {
    pub i2c_address: u8,
}

#[derive(Debug, Clone, Copy)]
pub struct GyroscopeConfig {
    pub i2c_address: u8,
}

#[derive(Debug, Clone, Copy)]
pub struct CompassConfig {
    pub i2c_address: u8,
}

#[derive(Debug, Clone)]
pub struct GpsConfig {
    pub serial: SerialConfig,
}

#[derive(Debug, Clone, Copy)]
pub struct ButtonConfig {
    pub pin: u8,
    pub normally_open: bool,
}

#[derive(Debug, Clone)]
pub struct TelemetryConfig {
    pub serial: SerialConfig,
    /// Milliseconds between two transmissions.
    pub send_interval: u64,
    pub token_path: String,
}

#[derive(Debug, Clone)]
pub struct Config {
    pub fuel_cell_a: FuelCellConfig,
    pub fuel_cell_b: FuelCellConfig,
    pub high_pressure_manometer: ManometerConfig,
    pub low_pressure_manometer: ManometerConfig,
    pub valve1: ActuatorConfig,
    pub valve2: ActuatorConfig,
    pub temperatures: Vec<TemperatureConfig>,
    pub battery_gauge: BatteryGaugeConfig,
    pub accelerometer: AccelerometerConfig,
    pub gyroscope: GyroscopeConfig,
    pub compass: CompassConfig,
    pub gps: GpsConfig,
    pub start_button: ButtonConfig,
    pub stop_button: ButtonConfig,
    pub dms: ButtonConfig,
    pub telemetry: TelemetryConfig,
    pub fca_relay: ContactorConfig,
    pub fcb_relay: ContactorConfig,
    pub source_isolation_contactor: ContactorConfig,
    pub level2_charge_contactor: ContactorConfig,
}

} // verus!
