//! Telemetry: the readings kept for transmission, and the fixed-schema record
//! derived from them. Encoding the record and writing it to the radio happen
//! outside; this module derives the record and frames the encoded bytes.
use vstd::prelude::*;
use crate::sensor_data::{BatteryGaugeData, FuelCellData, GpsData, TemperatureSensorName};

verus! {

/// Latest value of each temperature probe, in milli-degrees Celsius.
#[derive(Debug, Clone, Copy, PartialEq, Eq, Structural)]
pub struct TemperatureData {
    pub h2_plate: Option<i64>,
    pub batteries: Option<i64>,
    pub fuel_cell_controllers: Option<i64>,
    pub h2_tanks: Option<i64>,
    pub extra: Option<i64>,
}

impl TemperatureData {
    pub fn new() -> (r: TemperatureData)
        ensures
            r.h2_plate is None,
            r.batteries is None,
            r.fuel_cell_controllers is None,
            r.h2_tanks is None,
            r.extra is None,
    {
        TemperatureData { h2_plate: None, batteries: None, fuel_cell_controllers: None, h2_tanks: None, extra: None }
    }

    pub open spec fn get_spec(self, name: TemperatureSensorName) -> Option<i64> {
        match name {
            TemperatureSensorName::H2Plate => self.h2_plate,
            TemperatureSensorName::Batteries => self.batteries,
            TemperatureSensorName::FuelCellControllers => self.fuel_cell_controllers,
            TemperatureSensorName::H2Tanks => self.h2_tanks,
            TemperatureSensorName::Extra => self.extra,
        }
    }

    pub fn get(&self, name: TemperatureSensorName) -> (r: Option<i64>)
        ensures
            r == self.get_spec(name),
    {
        match name {
            TemperatureSensorName::H2Plate => self.h2_plate,
            TemperatureSensorName::Batteries => self.batteries,
            TemperatureSensorName::FuelCellControllers => self.fuel_cell_controllers,
            TemperatureSensorName::H2Tanks => self.h2_tanks,
            TemperatureSensorName::Extra => self.extra,
        }
    }

    /// Records the latest value of one probe.
    pub fn insert(&mut self, name: TemperatureSensorName, value: Option<i64>)
        ensures
            final(self).get_spec(name) == value,
            forall|other: TemperatureSensorName|
                other != name ==> final(self).get_spec(other) == old(self).get_spec(other),
    {
        match name {
            TemperatureSensorName::H2Plate => self.h2_plate = value,
            TemperatureSensorName::Batteries => self.batteries = value,
            TemperatureSensorName::FuelCellControllers => self.fuel_cell_controllers = value,
            TemperatureSensorName::H2Tanks => self.h2_tanks = value,
            TemperatureSensorName::Extra => self.extra = value,
        }
    }
}

/// The latest readings kept for transmission.
#[derive(Debug, Clone, Copy, PartialEq, Eq, Structural)]
pub struct TelemetryData {
    pub battery: Option<BatteryGaugeData>,
    pub fuel_cell_a: Option<FuelCellData>,
    pub fuel_cell_b: Option<FuelCellData>,
    pub gps: Option<GpsData>,
    pub temperature: TemperatureData,
}

impl TelemetryData {
    pub fn new() -> (r: TelemetryData)
        ensures
            r.battery is None,
            r.fuel_cell_a is None,
            r.fuel_cell_b is None,
            r.gps is None,
            r.temperature == TemperatureData::new_spec(),
    {
        TelemetryData { battery: None, fuel_cell_a: None, fuel_cell_b: None, gps: None, temperature: TemperatureData::new() }
    }
}

impl TemperatureData {
    /// The data with one probe's value replaced.
    pub open spec fn set_spec(self, name: TemperatureSensorName, value: Option<i64>) -> TemperatureData {
        match name {
            TemperatureSensorName::H2Plate => TemperatureData { h2_plate: value, ..self },
            TemperatureSensorName::Batteries => TemperatureData { batteries: value, ..self },
            TemperatureSensorName::FuelCellControllers => TemperatureData { fuel_cell_controllers: value, ..self },
            TemperatureSensorName::H2Tanks => TemperatureData { h2_tanks: value, ..self },
            TemperatureSensorName::Extra => TemperatureData { extra: value, ..self },
        }
    }

    /// Data that agrees with `old` but on one probe is `old` with that probe replaced.
    pub proof fn lemma_set_spec(self, old: TemperatureData, name: TemperatureSensorName, value: Option<i64>)
        requires
            self.get_spec(name) == value,
            forall|other: TemperatureSensorName| other != name ==> self.get_spec(other) == old.get_spec(other),
        ensures
            self == old.set_spec(name, value),
    {
        assert(self.get_spec(TemperatureSensorName::H2Plate) == old.set_spec(name, value).get_spec(TemperatureSensorName::H2Plate));
        assert(self.get_spec(TemperatureSensorName::Batteries) == old.set_spec(name, value).get_spec(TemperatureSensorName::Batteries));
        assert(self.get_spec(TemperatureSensorName::FuelCellControllers) == old.set_spec(name, value).get_spec(TemperatureSensorName::FuelCellControllers));
        assert(self.get_spec(TemperatureSensorName::H2Tanks) == old.set_spec(name, value).get_spec(TemperatureSensorName::H2Tanks));
        assert(self.get_spec(TemperatureSensorName::Extra) == old.set_spec(name, value).get_spec(TemperatureSensorName::Extra));
    }

    pub open spec fn new_spec() -> TemperatureData {
        TemperatureData { h2_plate: None, batteries: None, fuel_cell_controllers: None, h2_tanks: None, extra: None }
    }
}

/// Sum of two values when both are present and the sum fits.
pub open spec fn add_opt_spec(first: Option<i64>, second: Option<i64>) -> Option<i64> {
    match (first, second) {
        (Some(a), Some(b)) => if i64::MIN <= a + b <= i64::MAX {
            Some((a + b) as i64)
        } else {
            None
        },
        _ => None,
    }
}

/// Larger of two values when both are present.
pub open spec fn max_opt_spec(first: Option<i64>, second: Option<i64>) -> Option<i64> {
    match (first, second) {
        (Some(a), Some(b)) => if a > b {
            Some(a)
        } else {
            Some(b)
        },
        _ => None,
    }
}

pub fn add_opt(first: Option<i64>, second: Option<i64>) -> (r: Option<i64>)
    ensures
        r == add_opt_spec(first, second),
{
    match (first, second) {
        (Some(a), Some(b)) => a.checked_add(b),
        _ => None,
    }
}

pub fn max_opt(first: Option<i64>, second: Option<i64>) -> (r: Option<i64>)
    ensures
        r == max_opt_spec(first, second),
{
    match (first, second) {
        (Some(a), Some(b)) => if a > b {
            Some(a)
        } else {
            Some(b)
        },
        _ => None,
    }
}

pub open spec fn fuel_cell_field(
    data: Option<FuelCellData>,
    field: spec_fn(FuelCellData) -> Option<i64>,
) -> Option<i64> {
    match data {
        Some(d) => field(d),
        None => None,
    }
}

/// The record sent over the radio, in thousandths of each unit (latitude and
/// longitude in millionths of a degree).
#[derive(Debug, Clone)]
pub struct FinalTelemetryData {
    pub batt12v_temperature: Option<i64>,
    pub batt12v_voltage: Option<i64>,
    pub batt12v_current: Option<i64>,
    pub batt24v_temperature: Option<i64>,
    pub batt24v_voltage: Option<i64>,
    pub batt24v_current: Option<i64>,
    pub fuellcell_a_temperature: Option<i64>,
    pub fuellcell_b_temperature: Option<i64>,
    pub voltage: Option<i64>,
    pub current: Option<i64>,
    pub lat: Option<i64>,
    pub lon: Option<i64>,
    pub motor_power: Option<i64>,
    pub team: String,
}

impl FinalTelemetryData {
    /// An empty record for the given team token.
    pub fn none(team: String) -> (r: Self)
        ensures
            r.batt12v_temperature is None,
            r.batt12v_voltage is None,
            r.batt12v_current is None,
            r.batt24v_temperature is None,
            r.batt24v_voltage is None,
            r.batt24v_current is None,
            r.fuellcell_a_temperature is None,
            r.fuellcell_b_temperature is None,
            r.voltage is None,
            r.current is None,
            r.lat is None,
            r.lon is None,
            r.motor_power is None,
            r.team@ == team@,
    {
        FinalTelemetryData {
            batt12v_temperature: None,
            batt12v_voltage: None,
            batt12v_current: None,
            batt24v_temperature: None,
            batt24v_voltage: None,
            batt24v_current: None,
            fuellcell_a_temperature: None,
            fuellcell_b_temperature: None,
            voltage: None,
            current: None,
            lat: None,
            lon: None,
            motor_power: None,
            team,
        }
    }

    /// Derives the record's fields from the latest readings. The 12 V battery
    /// fields and the team token are left as they are.
    pub fn update(&mut self, data: &TelemetryData)
        ensures
            final(self).batt12v_temperature == old(self).batt12v_temperature,
            final(self).batt12v_voltage == old(self).batt12v_voltage,
            final(self).batt12v_current == old(self).batt12v_current,
            final(self).team@ == old(self).team@,
            final(self).batt24v_temperature == data.temperature.batteries,
            final(self).batt24v_voltage == (match data.battery {
                Some(b) => Some(b.voltage),
                None => None,
            }),
            final(self).batt24v_current == (match data.battery {
                Some(b) => Some(b.current),
                None => None,
            }),
            final(self).fuellcell_a_temperature == fuel_cell_field(data.fuel_cell_a, |d: FuelCellData| d.temperature),
            final(self).fuellcell_b_temperature == fuel_cell_field(data.fuel_cell_b, |d: FuelCellData| d.temperature),
            final(self).voltage == max_opt_spec(
                fuel_cell_field(data.fuel_cell_a, |d: FuelCellData| d.voltage),
                fuel_cell_field(data.fuel_cell_b, |d: FuelCellData| d.voltage),
            ),
            final(self).current == add_opt_spec(
                fuel_cell_field(data.fuel_cell_a, |d: FuelCellData| d.current),
                fuel_cell_field(data.fuel_cell_b, |d: FuelCellData| d.current),
            ),
            final(self).motor_power == add_opt_spec(
                fuel_cell_field(data.fuel_cell_a, |d: FuelCellData| d.power),
                fuel_cell_field(data.fuel_cell_b, |d: FuelCellData| d.power),
            ),
            final(self).lat == (match data.gps {
                Some(g) => g.latitude_deg,
                None => None,
            }),
            final(self).lon == (match data.gps {
                Some(g) => g.longitude_deg,
                None => None,
            }),
    {
        self.batt24v_temperature = data.temperature.get(TemperatureSensorName::Batteries);
        let (voltage, current) = match data.battery {
            Some(b) => (Some(b.voltage), Some(b.current)),
            None => (None, None),
        };
        self.batt24v_voltage = voltage;
        self.batt24v_current = current;

        let (a_temperature, a_voltage, a_current, a_power) = match data.fuel_cell_a {
            Some(a) => (a.temperature, a.voltage, a.current, a.power),
            None => (None, None, None, None),
        };
        let (b_temperature, b_voltage, b_current, b_power) = match data.fuel_cell_b {
            Some(b) => (b.temperature, b.voltage, b.current, b.power),
            None => (None, None, None, None),
        };
        self.fuellcell_a_temperature = a_temperature;
        self.fuellcell_b_temperature = b_temperature;
        self.voltage = max_opt(a_voltage, b_voltage);
        self.current = add_opt(a_current, b_current);

        let (lat, lon) = match data.gps {
            Some(g) => (g.latitude_deg, g.longitude_deg),
            None => (None, None),
        };
        self.lat = lat;
        self.lon = lon;

        self.motor_power = add_opt(a_power, b_power);
    }
}

/// The bytes written to the radio for one encoded record: the record, then a zero byte.
pub fn frame_null_terminated(data: &[u8]) -> (r: Vec<u8>)
    ensures
        r@ == data@.push(0u8),
{
    let mut r: Vec<u8> = Vec::new();
    let mut i: usize = 0;
    while i < data.len()
        invariant
            i <= data@.len(),
            r@ == data@.subrange(0, i as int),
        decreases data@.len() - i,
    {
        r.push(data[i]);
        i = i + 1;
    }
    r.push(0u8);
    assert(data@.subrange(0, data@.len() as int) =~= data@);
    r
}

} // verus!
