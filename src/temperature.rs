//! One-wire temperature probes, read in turn. The probe files are read
//! outside; this driver decides which probe comes next, decodes the file and
//! checks the temperature.
use vstd::prelude::*;
use crate::config::TemperatureConfig;
use crate::message::Exception;
use crate::sensor_data::{SensorData, TemperatureSensorName};
use crate::text::{
    back_blanks, back_blanks_exec, copy_range, find_from, find_from_exec, find_pair_exec,
    find_pair_from, fixed_value, parse_fixed, skip_blanks, skip_blanks_exec,
};
use crate::thresholds::{Breach, Thresholds};

verus! {

/// The probe read after `name`.
pub open spec fn next_probe_spec(name: TemperatureSensorName) -> TemperatureSensorName {
    match name {
        TemperatureSensorName::H2Plate => TemperatureSensorName::Batteries,
        TemperatureSensorName::Batteries => TemperatureSensorName::FuelCellControllers,
        TemperatureSensorName::FuelCellControllers => TemperatureSensorName::H2Tanks,
        TemperatureSensorName::H2Tanks => TemperatureSensorName::Extra,
        TemperatureSensorName::Extra => TemperatureSensorName::H2Plate,
    }
}

pub open spec fn limits_of(sensor: TemperatureConfig) -> Thresholds {
    Thresholds { warning: sensor.warn, alert: sensor.alert, critical: sensor.max }
}

pub open spec fn temperature_fault(breach: Option<Breach>) -> Option<Exception> {
    match breach {
        Some(Breach::Critical) => Some(Exception::CriticalTemperature),
        Some(Breach::Alert) => Some(Exception::AlertTemperature),
        Some(Breach::Warning) => Some(Exception::WarningTemperature),
        None => None,
    }
}

/// The temperature fault of a value, from the most severe limit it exceeds.
pub fn check_temperature(sensor: &TemperatureConfig, value: i64) -> (r: Option<Exception>)
    ensures
        r == temperature_fault(limits_of(*sensor).breach_above(value)),
{
    let limits = Thresholds { warning: sensor.warn, alert: sensor.alert, critical: sensor.max };
    match limits.check_above(value) {
        Some(Breach::Critical) => Some(Exception::CriticalTemperature),
        Some(Breach::Alert) => Some(Exception::AlertTemperature),
        Some(Breach::Warning) => Some(Exception::WarningTemperature),
        None => None,
    }
}

/// The temperature, in milli-degrees Celsius, held in a probe file: a first
/// line ending in `YES` (the checksum matched), then a line holding
/// `t=<milli-degrees>`.
pub open spec fn w1_value(c: Seq<u8>) -> Result<int, Exception> {
    let nl1 = find_from(c, 0, 10u8);
    let s1 = skip_blanks(c, 0, nl1);
    let e1 = back_blanks(c, s1, nl1);
    let yes = e1 - s1 >= 3 && c[e1 - 3] == 89u8 && c[e1 - 2] == 69u8 && c[e1 - 1] == 83u8;
    if !yes || nl1 + 1 >= c.len() {
        Err(Exception::InfoBadData)
    } else {
        let nl2 = find_from(c, nl1 + 1, 10u8);
        let s2 = skip_blanks(c, nl1 + 1, nl2);
        let e2 = back_blanks(c, s2, nl2);
        let pos = find_pair_from(c, s2, e2, 116u8, 61u8);
        if pos >= e2 {
            Err(Exception::InfoBadData)
        } else {
            match fixed_value(c.subrange(pos + 2, e2), 0) {
                Some(v) => Ok(v),
                None => Err(Exception::InfoBadData),
            }
        }
    }
}

/// Decodes the contents of a probe file; see `w1_value`.
pub fn read_sensor(c: &[u8]) -> (r: Result<i64, Exception>)
    ensures
        match r {
            Ok(v) => w1_value(c@) == Ok::<int, Exception>(v as int),
            Err(e) => w1_value(c@) == Err::<int, Exception>(e),
        },
{
    let nl1 = find_from_exec(c, 0, 10u8);
    let s1 = skip_blanks_exec(c, 0, nl1);
    let e1 = back_blanks_exec(c, s1, nl1);
    if !(e1 - s1 >= 3 && c[e1 - 3] == 89u8 && c[e1 - 2] == 69u8 && c[e1 - 1] == 83u8) {
        return Err(Exception::InfoBadData);
    }
    if c.len() - nl1 <= 1 {
        return Err(Exception::InfoBadData);
    }
    let nl2 = find_from_exec(c, nl1 + 1, 10u8);
    let s2 = skip_blanks_exec(c, nl1 + 1, nl2);
    let e2 = back_blanks_exec(c, s2, nl2);
    let pos = find_pair_exec(c, s2, e2, 116u8, 61u8);
    if pos >= e2 {
        return Err(Exception::InfoBadData);
    }
    let rest = copy_range(c, pos + 2, e2);
    match parse_fixed(rest.as_slice(), 0) {
        Some(v) => Ok(v),
        None => Err(Exception::InfoBadData),
    }
}

/// The configuration of a probe: the last entry with its name.
pub open spec fn probe_config(sensors: Seq<TemperatureConfig>, name: TemperatureSensorName) -> Option<TemperatureConfig>
    decreases sensors.len(),
{
    if sensors.len() == 0 {
        None
    } else if sensors.last().name == name {
        Some(sensors.last())
    } else {
        probe_config(sensors.drop_last(), name)
    }
}

pub struct Temperature {
    sensors: Vec<TemperatureConfig>,
    current_sensor: TemperatureSensorName,
}

impl Temperature {
    pub closed spec fn sensors_spec(self) -> Seq<TemperatureConfig> {
        self.sensors@
    }

    /// The probe read last.
    pub closed spec fn current_spec(self) -> TemperatureSensorName {
        self.current_sensor
    }

    pub fn new(config: &Vec<TemperatureConfig>) -> (r: Temperature)
        ensures
            r.sensors_spec() == config@,
            r.current_spec() == TemperatureSensorName::H2Plate,
    {
        let mut sensors: Vec<TemperatureConfig> = Vec::new();
        let mut i: usize = 0;
        while i < config.len()
            invariant
                i <= config@.len(),
                sensors@ == config@.subrange(0, i as int),
            decreases config@.len() - i,
        {
            sensors.push(config[i]);
            i = i + 1;
        }
        assert(config@.subrange(0, config@.len() as int) =~= config@);
        Temperature { sensors, current_sensor: TemperatureSensorName::H2Plate }
    }

    /// The probe that the next `read` is for.
    pub fn next_probe(&self) -> (r: TemperatureSensorName)
        ensures
            r == next_probe_spec(self.current_spec()),
    {
        match self.current_sensor {
            TemperatureSensorName::H2Plate => TemperatureSensorName::Batteries,
            TemperatureSensorName::Batteries => TemperatureSensorName::FuelCellControllers,
            TemperatureSensorName::FuelCellControllers => TemperatureSensorName::H2Tanks,
            TemperatureSensorName::H2Tanks => TemperatureSensorName::Extra,
            TemperatureSensorName::Extra => TemperatureSensorName::H2Plate,
        }
    }

    /// The configuration of a probe, if it is configured.
    pub fn probe(&self, name: TemperatureSensorName) -> (r: Option<TemperatureConfig>)
        ensures
            r == probe_config(self.sensors_spec(), name),
    {
        let mut i = self.sensors.len();
        assert(self.sensors@.subrange(0, i as int) =~= self.sensors@);
        while i > 0
            invariant
                i <= self.sensors@.len(),
                probe_config(self.sensors@, name) == probe_config(self.sensors@.subrange(0, i as int), name),
            decreases i,
        {
            let ghost prefix = self.sensors@.subrange(0, i as int);
            assert(prefix.drop_last() =~= self.sensors@.subrange(0, i - 1));
            if self.sensors[i - 1].name == name {
                return Some(self.sensors[i - 1]);
            }
            i = i - 1;
        }
        assert(self.sensors@.subrange(0, 0) =~= Seq::<TemperatureConfig>::empty());
        None
    }

    /// Moves on to the next probe and decodes what was read from its file:
    /// an unconfigured probe counts as not connected.
    pub fn read(&mut self, contents: Result<&[u8], Exception>) -> (r: (SensorData, Option<Exception>))
        ensures
            final(self).sensors_spec() == old(self).sensors_spec(),
            final(self).current_spec() == next_probe_spec(old(self).current_spec()),
            ({
                let name = final(self).current_spec();
                match probe_config(old(self).sensors_spec(), name) {
                    None => r == (SensorData::Temperature(name, None), Some(Exception::InfoNotConnected)),
                    Some(sensor) => match contents {
                        Err(e) => r == (SensorData::Temperature(name, None), Some(e)),
                        Ok(c) => match w1_value(c@) {
                            Ok(v) => r == (
                                SensorData::Temperature(name, Some(v as i64)),
                                temperature_fault(limits_of(sensor).breach_above(v as i64)),
                            ),
                            Err(e) => r == (SensorData::Temperature(name, None), Some(e)),
                        },
                    },
                }
            }),
    {
        self.current_sensor = self.next_probe();
        let name = self.current_sensor;
        let sensor = match self.probe(name) {
            Some(s) => s,
            None => return (SensorData::Temperature(name, None), Some(Exception::InfoNotConnected)),
        };
        let c = match contents {
            Ok(c) => c,
            Err(e) => return (SensorData::Temperature(name, None), Some(e)),
        };
        match read_sensor(c) {
            Ok(v) => (SensorData::Temperature(name, Some(v)), check_temperature(&sensor, v)),
            Err(e) => (SensorData::Temperature(name, None), Some(e)),
        }
    }
}

} // verus!
