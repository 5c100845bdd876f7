//! Pressure sensor read through an analog-to-digital converter on a shared
//! bus. The bus transfer happens outside; this driver builds the request,
//! decodes the answer and checks the pressure.
use vstd::prelude::*;
use crate::config::ManometerConfig;
use crate::message::Exception;
use crate::sensor_data::SensorData;
use crate::thresholds::{Breach, Thresholds};

verus! {

/// Converter code that stands for the full-scale pressure.
pub const MAX_ADC_VALUE: i64 = 0x3F;

/// Calibration factor of the converter, in thousandths.
pub const ADC_BIAS: i64 = 1038;

#[derive(Debug, Clone, Copy, PartialEq, Eq, Structural)]
pub enum ManometerName {
    HighPressure,
    LowPressure,
}

pub struct Manometer {
    channel: u8,
    max_bar: u32,
    name: ManometerName,
    limits: Thresholds,
    /// The second most recent pressure, once two have been read.
    previous: Option<i64>,
    /// The most recent pressure.
    latest: Option<i64>,
    max_delta: i64,
}

pub open spec fn abs_diff(a: int, b: int) -> int {
    if a >= b {
        a - b
    } else {
        b - a
    }
}

/// The ten-bit converter code held in the last two answer bytes.
pub open spec fn adc_code(high: u8, low: u8) -> int {
    (high % 4) as int * 256 + low as int
}

/// Pressure in millibar for a converter code, with full scale `max_bar`.
pub open spec fn adc_pressure(code: int, max_bar: int) -> int {
    code * max_bar * ADC_BIAS / (MAX_ADC_VALUE * 1000)
}

/// The control byte that selects a converter channel.
pub open spec fn adc_config_byte(channel: u8) -> u8 {
    0x80u8 | ((channel << 4u8) as u8)
}

/// The pressure fault of a breached limit.
pub open spec fn pressure_fault(breach: Option<Breach>) -> Option<Exception> {
    match breach {
        Some(Breach::Critical) => Some(Exception::CriticalPressure),
        Some(Breach::Alert) => Some(Exception::AlertPressure),
        Some(Breach::Warning) => Some(Exception::WarningPressure),
        None => None,
    }
}

impl Manometer {
    /// A manometer as configured, with no pressure read yet.
    pub closed spec fn initial(config: ManometerConfig, name: ManometerName) -> Manometer {
        Manometer {
            channel: config.channel,
            max_bar: config.max_bar,
            name,
            limits: Thresholds {
                warning: config.warn_pressure,
                alert: config.alert_pressure,
                critical: config.critical_pressure,
            },
            previous: None,
            latest: None,
            max_delta: config.max_delta,
        }
    }

    pub closed spec fn channel_spec(self) -> u8 {
        self.channel
    }

    pub closed spec fn name_spec(self) -> ManometerName {
        self.name
    }

    pub closed spec fn max_bar_spec(self) -> u32 {
        self.max_bar
    }

    pub closed spec fn limits_spec(self) -> Thresholds {
        self.limits
    }

    pub closed spec fn max_delta_spec(self) -> i64 {
        self.max_delta
    }

    /// The pressures remembered for the rate-of-change check, oldest first.
    pub closed spec fn history(self) -> (Option<i64>, Option<i64>) {
        (self.previous, self.latest)
    }

    /// Summed change over the last two transitions ending at `pressure`, or
    /// zero while fewer than two earlier pressures are known.
    pub open spec fn delta_to(self, pressure: i64) -> int {
        match self.history() {
            (Some(a), Some(b)) => abs_diff(a as int, b as int) + abs_diff(b as int, pressure as int),
            _ => 0,
        }
    }

    /// The fault raised by a new pressure: a critical one when the pressure
    /// changed too fast, else the highest limit it exceeds.
    pub open spec fn fault_for(self, pressure: i64) -> Option<Exception> {
        if self.delta_to(pressure) > self.max_delta_spec() {
            Some(Exception::CriticalPressure)
        } else {
            pressure_fault(self.limits_spec().breach_above(pressure))
        }
    }

    /// The manometer after it has seen a new pressure.
    pub closed spec fn after(self, pressure: i64) -> Manometer {
        Manometer { previous: self.latest, latest: Some(pressure), ..self }
    }

    /// What a correct answer of the converter decodes to.
    pub open spec fn decoded(self, transferred: usize, answer: [u8; 3]) -> Result<i64, Exception> {
        if transferred != 3 || answer@[1] >= 8 {
            Err(Exception::InfoBadData)
        } else {
            Ok(adc_pressure(adc_code(answer@[1], answer@[2]), self.max_bar_spec() as int) as i64)
        }
    }

    pub fn new(config: &ManometerConfig, name: ManometerName) -> (r: Manometer)
        ensures
            r == Manometer::initial(*config, name),
    {
        Manometer {
            channel: config.channel,
            max_bar: config.max_bar,
            name,
            limits: Thresholds {
                warning: config.warn_pressure,
                alert: config.alert_pressure,
                critical: config.critical_pressure,
            },
            previous: None,
            latest: None,
            max_delta: config.max_delta,
        }
    }

    /// The three bytes to send to the converter to sample this manometer's channel.
    pub fn adc_request(&self) -> (r: [u8; 3])
        ensures
            r@ == seq![1u8, adc_config_byte(self.channel_spec()), 0u8],
    {
        let config_byte: u8 = 0x80 | (self.channel << 4u8);
        let r: [u8; 3] = [1, config_byte, 0];
        assert(r@ =~= seq![1u8, adc_config_byte(self.channel_spec()), 0u8]);
        r
    }

    /// Decodes the converter's answer to `adc_request`: `transferred` bytes
    /// were exchanged and `answer` was received.
    pub fn read_adc(&self, transferred: usize, answer: &[u8; 3]) -> (r: Result<i64, Exception>)
        ensures
            r == self.decoded(transferred, *answer),
            r matches Ok(p) ==> p >= 0,
    {
        if transferred != 3 {
            return Err(Exception::InfoBadData);
        }
        let high = answer[1];
        let low = answer[2];
        if high >= 8 {
            return Err(Exception::InfoBadData);
        }
        let code: i64 = (high % 4) as i64 * 256 + low as i64;
        assert(0 <= code <= 1023);
        assert(0 <= code * self.max_bar <= 1023 * 0xffff_ffff) by (nonlinear_arith)
            requires
                0 <= code <= 1023,
                self.max_bar <= 0xffff_ffff,
        ;
        let scaled: i64 = code * self.max_bar as i64;
        let biased: i64 = scaled * ADC_BIAS;
        let pressure: i64 = biased / (MAX_ADC_VALUE * 1000);
        proof {
            assert(code * self.max_bar * ADC_BIAS == biased) by (nonlinear_arith)
                requires
                    scaled == code * self.max_bar as i64,
                    biased == scaled * ADC_BIAS,
            ;
        }
        Ok(pressure)
    }

    /// Remembers a new pressure and returns the fault it raises, if any.
    pub fn check_pressure(&mut self, pressure: i64) -> (r: Option<Exception>)
        ensures
            r == old(self).fault_for(pressure),
            *final(self) == old(self).after(pressure),
            final(self).history() == (old(self).history().1, Some(pressure)),
            final(self).limits_spec() == old(self).limits_spec(),
            final(self).max_delta_spec() == old(self).max_delta_spec(),
            final(self).max_bar_spec() == old(self).max_bar_spec(),
            final(self).channel_spec() == old(self).channel_spec(),
            final(self).name_spec() == old(self).name_spec(),
    {
        let mut pressure_delta: i128 = 0;
        if let (Some(a), Some(b)) = (self.previous, self.latest) {
            let first: i128 = if a >= b {
                a as i128 - b as i128
            } else {
                b as i128 - a as i128
            };
            let second: i128 = if b >= pressure {
                b as i128 - pressure as i128
            } else {
                pressure as i128 - b as i128
            };
            pressure_delta = first + second;
        }
        self.previous = self.latest;
        self.latest = Some(pressure);

        if pressure_delta > self.max_delta as i128 {
            return Some(Exception::CriticalPressure);
        }
        match self.limits.check_above(pressure) {
            Some(Breach::Critical) => Some(Exception::CriticalPressure),
            Some(Breach::Alert) => Some(Exception::AlertPressure),
            Some(Breach::Warning) => Some(Exception::WarningPressure),
            None => None,
        }
    }

    /// A reading of this manometer from one bus transfer (the number of bytes
    /// exchanged and the answer, or the fault that ended the transfer), and
    /// the fault it raises: the transfer's or decoding's, or the pressure
    /// check's result.
    pub fn read(&mut self, transfer: Result<(usize, [u8; 3]), Exception>) -> (r: (SensorData, Option<Exception>))
        ensures
            ({
                let value = match transfer {
                    Ok((n, answer)) => old(self).decoded(n, answer),
                    Err(e) => Err(e),
                };
                &&& r.0 == match old(self).name_spec() {
                    ManometerName::LowPressure => SensorData::LowPressureManometer(value.ok()),
                    ManometerName::HighPressure => SensorData::HighPressureManometer(value.ok()),
                }
                &&& r.1 == match value {
                    Ok(p) => old(self).fault_for(p),
                    Err(e) => Some(e),
                }
                &&& *final(self) == match value {
                    Ok(p) => old(self).after(p),
                    Err(_) => *old(self),
                }
                &&& final(self).history() == match value {
                    Ok(p) => (old(self).history().1, Some(p)),
                    Err(_) => old(self).history(),
                }
                &&& final(self).limits_spec() == old(self).limits_spec()
                &&& final(self).max_delta_spec() == old(self).max_delta_spec()
                &&& final(self).name_spec() == old(self).name_spec()
            }),
    {
        let value = match transfer {
            Ok((n, answer)) => self.read_adc(n, &answer),
            Err(e) => Err(e),
        };
        let data = match self.name {
            ManometerName::LowPressure => SensorData::LowPressureManometer(value.ok()),
            ManometerName::HighPressure => SensorData::HighPressureManometer(value.ok()),
        };
        match value {
            Ok(pressure) => {
                let fault = self.check_pressure(pressure);
                (data, fault)
            },
            Err(e) => (data, Some(e)),
        }
    }
}

/// Whatever the pressures' magnitudes, three readings whose summed change
/// exceeds the configured rate-of-change limit make the third read critical.
pub proof fn lemma_rate_of_change_trips(
    config: ManometerConfig,
    name: ManometerName,
    r0: i64,
    r1: i64,
    r2: i64,
)
    requires
        abs_diff(r0 as int, r1 as int) + abs_diff(r1 as int, r2 as int) > config.max_delta,
    ensures
        ({
            let m1 = Manometer::initial(config, name).after(r0);
            let m2 = m1.after(r1);
            m2.fault_for(r2) == Some(Exception::CriticalPressure)
        }),
{
}

} // verus!
