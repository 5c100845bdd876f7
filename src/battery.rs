//! Battery gauge on the I2C bus. The bus transaction happens outside; this
//! driver knows the registers, scales the raw words and checks the charge.
use vstd::prelude::*;
use crate::config::BatteryGaugeConfig;
use crate::message::Exception;
use crate::sensor_data::{BatteryGaugeData, SensorData};
use crate::thresholds::{Breach, Thresholds};

verus! {

pub const CONTROL_REGISTER: u8 = 0x01;
/// Converter asleep, prescaler 1024, charge-complete pin disabled.
pub const INITIAL_CONFIGURATION: u8 = 0b00101000;
/// Same configuration, with one conversion requested.
pub const REQUEST_ADC_UPDATE: u8 = 0b01101000;
/// Time for a requested conversion to complete.
pub const ADC_UPDATE_DELAY_MS: u64 = 50;
pub const VOLTAGE_REGISTER: u8 = 0x08;
pub const CURRENT_REGISTER: u8 = 0x0E;
pub const CHARGE_REGISTER: u8 = 0x02;

/// Division rounding toward zero.
pub open spec fn div_trunc(a: int, b: int) -> int {
    if a >= 0 {
        a / b
    } else {
        -((-a) / b)
    }
}

/// Millivolts for a raw voltage word: full scale is 70.8 V.
pub open spec fn voltage_of(raw: u16) -> int {
    raw as int * 70_800 / 65_535
}

/// Milliamperes for a raw current word: the midpoint is zero, full scale 64 A
/// (sense resistor of 1 mOhm).
pub open spec fn current_of(raw: u16) -> int {
    div_trunc(64_000 * (raw as int - 32_767), 32_767)
}

/// Thousandths of a percent of charge for a raw accumulated-charge word. The
/// battery is taken as 80 % charged at boot, and the counter as counting down
/// while it discharges.
pub open spec fn charge_level_of(raw: u16) -> int {
    let coulomb_count = (32_767 - raw as int) * 1024;
    div_trunc((43_200 - coulomb_count) * 100_000, 86_400)
}

pub open spec fn charge_fault(breach: Option<Breach>) -> Option<Exception> {
    match breach {
        Some(Breach::Critical) => Some(Exception::CriticalCharge),
        Some(Breach::Alert) => Some(Exception::AlertCharge),
        Some(Breach::Warning) => Some(Exception::WarningCharge),
        None => None,
    }
}

fn div_trunc_exec(a: i128, b: i128) -> (r: i128)
    requires
        b > 0,
        a > i128::MIN,
    ensures
        r == div_trunc(a as int, b as int),
{
    if a >= 0 {
        a / b
    } else {
        -((-a) / b)
    }
}

pub struct BatteryGauge {
    pub config: BatteryGaugeConfig,
}

impl BatteryGauge {
    pub open spec fn limits(self) -> Thresholds {
        Thresholds {
            warning: self.config.warning_level,
            alert: self.config.alert_level,
            critical: self.config.critical_level,
        }
    }

    pub fn new(config: &BatteryGaugeConfig) -> (r: BatteryGauge)
        ensures
            r.config == *config,
    {
        BatteryGauge { config: *config }
    }

    /// Scales the three raw words of one transaction.
    pub fn read_data(&self, voltage_raw: u16, current_raw: u16, charge_raw: u16) -> (r: BatteryGaugeData)
        ensures
            r.voltage == voltage_of(voltage_raw),
            r.current == current_of(current_raw),
            r.charge_level == charge_level_of(charge_raw),
    {
        let voltage: i64 = voltage_raw as i64 * 70_800 / 65_535;
        let current = div_trunc_exec(64_000 * (current_raw as i128 - 32_767), 32_767);
        let coulomb_count: i128 = (32_767 - charge_raw as i128) * 1024;
        let charge_level = div_trunc_exec((43_200 - coulomb_count) * 100_000, 86_400);
        BatteryGaugeData { voltage, current: current as i64, charge_level: charge_level as i64 }
    }

    /// The most severe charge limit that the level falls under, as a fault.
    pub fn check_data(&self, battery_data: &BatteryGaugeData) -> (r: Option<Exception>)
        ensures
            r == charge_fault(self.limits().breach_below(battery_data.charge_level)),
    {
        let limits = Thresholds {
            warning: self.config.warning_level,
            alert: self.config.alert_level,
            critical: self.config.critical_level,
        };
        match limits.check_below(battery_data.charge_level) {
            Some(Breach::Critical) => Some(Exception::CriticalCharge),
            Some(Breach::Alert) => Some(Exception::AlertCharge),
            Some(Breach::Warning) => Some(Exception::WarningCharge),
            None => None,
        }
    }

    /// A reading from the words of one transaction (voltage, current, charge),
    /// or from the fault that ended the transaction.
    pub fn read(&self, raw: Result<(u16, u16, u16), Exception>) -> (r: (SensorData, Option<Exception>))
        ensures
            match raw {
                Ok((v, c, q)) => {
                    let data = BatteryGaugeData {
                        voltage: voltage_of(v) as i64,
                        current: current_of(c) as i64,
                        charge_level: charge_level_of(q) as i64,
                    };
                    r == (SensorData::Batteries(Some(data)), charge_fault(self.limits().breach_below(data.charge_level)))
                },
                Err(e) => r == (SensorData::Batteries(None), Some(e)),
            },
    {
        match raw {
            Ok((v, c, q)) => {
                let data = self.read_data(v, c, q);
                (SensorData::Batteries(Some(data)), self.check_data(&data))
            },
            Err(e) => (SensorData::Batteries(None), Some(e)),
        }
    }
}

} // verus!
