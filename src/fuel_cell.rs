//! Fuel cell controller on a serial line. The controller reports lines such
//! as `FC_V: 41.2 V|FC_A: 3.1 A|FCT1: 35.0 C|...!`; the line is read outside,
//! and this driver decodes it and checks the stack temperature.
use vstd::prelude::*;
use vstd::string::StringSliceAdditionalSpecFns;
use crate::config::FuelCellConfig;
use crate::message::Exception;
use crate::sensor_data::{FuelCellData, SensorData};
use crate::text::{
    back_blanks, back_blanks_exec, find_from, find_from_exec, fixed_value, parse_fixed,
    skip_blanks, skip_blanks_exec, copy_range, contains, contains_exec,
};
use crate::thresholds::{Breach, Thresholds};

verus! {

#[derive(Debug, Clone, Copy, PartialEq, Eq, Structural)]
pub enum FuelCellName {
    A,
    B,
}

/// Value fields of one report, as last seen.
#[derive(Debug, Clone, Copy, PartialEq, Eq, Structural)]
pub struct ReportFields {
    pub voltage: Option<i64>,
    pub current: Option<i64>,
    pub temperature1: Option<i64>,
    pub temperature2: Option<i64>,
    pub power: Option<i64>,
    pub energy: Option<i64>,
}

pub open spec fn key_voltage() -> Seq<u8> {
    seq![70u8, 67u8, 95u8, 86u8]
}

pub open spec fn key_current() -> Seq<u8> {
    seq![70u8, 67u8, 95u8, 65u8]
}

pub open spec fn key_temperature1() -> Seq<u8> {
    seq![70u8, 67u8, 84u8, 49u8]
}

pub open spec fn key_temperature2() -> Seq<u8> {
    seq![70u8, 67u8, 84u8, 50u8]
}

pub open spec fn key_power() -> Seq<u8> {
    seq![70u8, 67u8, 95u8, 87u8]
}

pub open spec fn key_energy() -> Seq<u8> {
    seq![69u8, 110u8, 101u8, 114u8, 103u8, 121u8]
}

/// The number before the unit in `s[from..to]` (`" 41.2 V"`), in thousandths:
/// the text is trimmed, and must hold a space after the number.
pub open spec fn value_without_unit(s: Seq<u8>, from: int, to: int) -> Option<i64> {
    let a = skip_blanks(s, from, to);
    let b = back_blanks(s, a, to);
    let sp = find_from(s, a, 32u8);
    if sp >= b {
        None
    } else {
        match fixed_value(s.subrange(a, sp), 3) {
            Some(v) => Some(v as i64),
            None => None,
        }
    }
}

/// The fields after reading the segment `s[from..to]` (`name: value unit`).
pub open spec fn apply_segment(s: Seq<u8>, from: int, to: int, acc: ReportFields) -> ReportFields {
    let colon = find_from(s, from, 58u8);
    if colon >= to {
        acc
    } else {
        let a = skip_blanks(s, from, colon);
        let b = back_blanks(s, a, colon);
        let name = s.subrange(a, b);
        let value = value_without_unit(s, colon + 1, to);
        if name == key_voltage() {
            ReportFields { voltage: value, ..acc }
        } else if name == key_current() {
            ReportFields { current: value, ..acc }
        } else if name == key_temperature1() {
            ReportFields { temperature1: value, ..acc }
        } else if name == key_temperature2() {
            ReportFields { temperature2: value, ..acc }
        } else if name == key_power() {
            ReportFields { power: value, ..acc }
        } else if name == key_energy() {
            ReportFields { energy: value, ..acc }
        } else {
            acc
        }
    }
}

/// The fields after reading the `|`-separated segments of `s` from `from` on.
pub open spec fn report_fields(s: Seq<u8>, from: int, acc: ReportFields) -> ReportFields
    decreases s.len() - from,
{
    if from > s.len() || from < 0 {
        acc
    } else {
        let bar = find_from(s, from, 124u8);
        let next = apply_segment(s, from, bar, acc);
        if bar >= s.len() || bar < from {
            next
        } else {
            report_fields(s, bar + 1, next)
        }
    }
}

pub open spec fn no_fields() -> ReportFields {
    ReportFields { voltage: None, current: None, temperature1: None, temperature2: None, power: None, energy: None }
}

/// Mean of the two values when both are present (rounded toward zero), else
/// whichever is present.
pub open spec fn mean_opt(first: Option<i64>, second: Option<i64>) -> Option<i64> {
    match (first, second) {
        (Some(a), Some(b)) => Some(
            (if a + b >= 0 {
                (a + b) / 2
            } else {
                -((-(a + b)) / 2)
            }) as i64,
        ),
        (Some(a), None) => Some(a),
        (None, _) => second,
    }
}

/// The data of one report line.
pub open spec fn report_data(s: Seq<u8>) -> FuelCellData {
    let f = report_fields(s, 0, no_fields());
    FuelCellData {
        temperature: mean_opt(f.temperature1, f.temperature2),
        voltage: f.voltage,
        current: f.current,
        power: f.power,
        energy: f.energy,
    }
}

pub open spec fn fuel_cell_fault(breach: Option<Breach>) -> Option<Exception> {
    match breach {
        Some(Breach::Critical) => Some(Exception::CriticalTemperature),
        Some(Breach::Alert) => Some(Exception::AlertTemperature),
        Some(Breach::Warning) => Some(Exception::WarningTemperature),
        None => None,
    }
}

/// Decodes the number before the unit in `s[from..to]`; see `value_without_unit`.
pub fn get_value_without_unit(s: &[u8], from: usize, to: usize) -> (r: Option<i64>)
    requires
        from <= to <= s@.len(),
    ensures
        r == value_without_unit(s@, from as int, to as int),
{
    let a = skip_blanks_exec(s, from, to);
    let b = back_blanks_exec(s, a, to);
    let sp = find_from_exec(s, a, 32u8);
    if sp >= b {
        return None;
    }
    let number = copy_range(s, a, sp);
    parse_fixed(number.as_slice(), 3)
}

fn matches_key(s: &[u8], from: usize, to: usize, key: &[u8]) -> (r: bool)
    requires
        from <= to <= s@.len(),
    ensures
        r == (s@.subrange(from as int, to as int) == key@),
{
    if to - from != key.len() {
        return false;
    }
    let mut i: usize = 0;
    while i < key.len()
        invariant
            i <= key@.len(),
            to - from == key@.len(),
            from <= to <= s@.len(),
            forall|j: int| 0 <= j < i ==> s@[from + j] == key@[j],
        decreases key@.len() - i,
    {
        if s[from + i] != key[i] {
            assert(s@.subrange(from as int, to as int)[i as int] != key@[i as int]);
            return false;
        }
        i = i + 1;
    }
    assert(s@.subrange(from as int, to as int) =~= key@);
    true
}

fn apply_segment_exec(s: &[u8], from: usize, to: usize, acc: ReportFields) -> (r: ReportFields)
    requires
        from <= to <= s@.len(),
    ensures
        r == apply_segment(s@, from as int, to as int, acc),
{
    let colon = find_from_exec(s, from, 58u8);
    if colon >= to {
        return acc;
    }
    let a = skip_blanks_exec(s, from, colon);
    let b = back_blanks_exec(s, a, colon);
    let value = get_value_without_unit(s, colon + 1, to);
    let k_voltage: [u8; 4] = [70, 67, 95, 86];
    let k_current: [u8; 4] = [70, 67, 95, 65];
    let k_temperature1: [u8; 4] = [70, 67, 84, 49];
    let k_temperature2: [u8; 4] = [70, 67, 84, 50];
    let k_power: [u8; 4] = [70, 67, 95, 87];
    let k_energy: [u8; 6] = [69, 110, 101, 114, 103, 121];
    assert(k_voltage@ =~= key_voltage());
    assert(k_current@ =~= key_current());
    assert(k_temperature1@ =~= key_temperature1());
    assert(k_temperature2@ =~= key_temperature2());
    assert(k_power@ =~= key_power());
    assert(k_energy@ =~= key_energy());
    if matches_key(s, a, b, &k_voltage) {
        ReportFields { voltage: value, ..acc }
    } else if matches_key(s, a, b, &k_current) {
        ReportFields { current: value, ..acc }
    } else if matches_key(s, a, b, &k_temperature1) {
        ReportFields { temperature1: value, ..acc }
    } else if matches_key(s, a, b, &k_temperature2) {
        ReportFields { temperature2: value, ..acc }
    } else if matches_key(s, a, b, &k_power) {
        ReportFields { power: value, ..acc }
    } else if matches_key(s, a, b, &k_energy) {
        ReportFields { energy: value, ..acc }
    } else {
        acc
    }
}

/// Mean of two present values, else whichever is present.
pub fn max_opt(first: Option<i64>, second: Option<i64>) -> (r: Option<i64>)
    ensures
        r == mean_opt(first, second),
{
    match (first, second) {
        (Some(a), Some(b)) => {
            let sum: i128 = a as i128 + b as i128;
            let mean: i128 = if sum >= 0 {
                sum / 2
            } else {
                -((-sum) / 2)
            };
            Some(mean as i64)
        },
        (Some(a), None) => Some(a),
        (None, _) => second,
    }
}

/// Decodes one report line; see `report_data`.
pub fn parse_report(s: &[u8]) -> (r: FuelCellData)
    ensures
        r == report_data(s@),
{
    let mut acc = ReportFields {
        voltage: None,
        current: None,
        temperature1: None,
        temperature2: None,
        power: None,
        energy: None,
    };
    let mut from: usize = 0;
    assert(acc == no_fields());
    loop
        invariant
            from <= s@.len(),
            report_fields(s@, 0, no_fields()) == report_fields(s@, from as int, acc),
        ensures
            report_fields(s@, 0, no_fields()) == acc,
        decreases s@.len() - from,
    {
        let bar = find_from_exec(s, from, 124u8);
        let ghost before = acc;
        acc = apply_segment_exec(s, from, bar, acc);
        assert(report_fields(s@, from as int, before) == if bar >= s@.len() {
            acc
        } else {
            report_fields(s@, bar + 1, acc)
        });
        if bar >= s.len() {
            break;
        }
        from = bar + 1;
    }
    FuelCellData {
        temperature: max_opt(acc.temperature1, acc.temperature2),
        voltage: acc.voltage,
        current: acc.current,
        power: acc.power,
        energy: acc.energy,
    }
}

/// Commands understood by the controller, each sent followed by a carriage return.
pub const START_COMMAND: &'static str = "start";
pub const SHUTDOWN_COMMAND: &'static str = "end";
pub const PURGE_COMMAND: &'static str = "p";
pub const PRESSURE_OK: &'static str = "Anode Supply Pressure OK";
pub const TEMPERATURE_OK: &'static str = "Temperature Check OK";
pub const SYSTEM_OFF: &'static str = "System Off";

/// Lines the controller may take to complete a handshake.
pub const HANDSHAKE_ATTEMPTS: u32 = 5;
/// Read timeout for one handshake line.
pub const HANDSHAKE_LINE_TIMEOUT_MS: u64 = 10_000;
/// Pause after each handshake line.
pub const HANDSHAKE_PAUSE_MS: u64 = 200;

#[derive(Debug, Clone, Copy, PartialEq, Eq, Structural)]
pub enum HandshakeKind {
    Start,
    Shutdown,
}

#[derive(Debug, Clone, Copy, PartialEq, Eq, Structural)]
pub enum HandshakeStep {
    /// Read another line.
    Continue,
    /// The controller confirmed.
    Done,
    /// The handshake failed with this fault.
    Failed(Exception),
}

/// Progress of a start or shutdown handshake with the controller.
#[derive(Debug, Clone, Copy, PartialEq, Eq, Structural)]
pub struct Handshake {
    pub kind: HandshakeKind,
    pub pressure_ok: bool,
    pub temperature_ok: bool,
    pub system_off: bool,
    pub attempts: u32,
}

impl Handshake {
    pub open spec fn fresh(kind: HandshakeKind) -> Handshake {
        Handshake { kind, pressure_ok: false, temperature_ok: false, system_off: false, attempts: HANDSHAKE_ATTEMPTS }
    }

    pub open spec fn complete(self) -> bool {
        match self.kind {
            HandshakeKind::Start => self.pressure_ok && self.temperature_ok,
            HandshakeKind::Shutdown => self.system_off,
        }
    }

    /// The handshake after one line was read, before counting the attempt.
    pub open spec fn noted(self, line: Seq<u8>) -> Handshake {
        match self.kind {
            HandshakeKind::Start => if contains(line, PRESSURE_OK.spec_bytes()) {
                Handshake { pressure_ok: true, ..self }
            } else if contains(line, TEMPERATURE_OK.spec_bytes()) {
                Handshake { temperature_ok: true, ..self }
            } else {
                self
            },
            HandshakeKind::Shutdown => if contains(line, SYSTEM_OFF.spec_bytes()) {
                Handshake { system_off: true, ..self }
            } else {
                self
            },
        }
    }

    pub open spec fn failure(self) -> Exception {
        match self.kind {
            HandshakeKind::Start => Exception::StartupError,
            HandshakeKind::Shutdown => Exception::ShutdownError,
        }
    }

    pub fn new(kind: HandshakeKind) -> (r: Handshake)
        ensures
            r == Handshake::fresh(kind),
    {
        Handshake { kind, pressure_ok: false, temperature_ok: false, system_off: false, attempts: HANDSHAKE_ATTEMPTS }
    }

    /// Takes one line of the controller (or the fault that ended the read).
    /// Each line uses up one attempt; a line that completes the handshake
    /// ends it, and otherwise it fails once no attempt is left.
    pub fn on_line(&mut self, line: Result<&[u8], Exception>) -> (r: HandshakeStep)
        ensures
            match line {
                Err(e) => r == HandshakeStep::Failed(e) && *final(self) == *old(self),
                Ok(s) => {
                    let noted = old(self).noted(s@);
                    let left = if old(self).attempts > 0 {
                        (old(self).attempts - 1) as u32
                    } else {
                        0u32
                    };
                    &&& *final(self) == Handshake { attempts: left, ..noted }
                    &&& r == if noted.complete() {
                        HandshakeStep::Done
                    } else if left == 0 {
                        HandshakeStep::Failed(old(self).failure())
                    } else {
                        HandshakeStep::Continue
                    }
                },
            },
    {
        let s = match line {
            Ok(s) => s,
            Err(e) => return HandshakeStep::Failed(e),
        };
        match self.kind {
            HandshakeKind::Start => {
                if contains_exec(s, PRESSURE_OK.as_bytes()) {
                    self.pressure_ok = true;
                } else if contains_exec(s, TEMPERATURE_OK.as_bytes()) {
                    self.temperature_ok = true;
                }
            },
            HandshakeKind::Shutdown => {
                if contains_exec(s, SYSTEM_OFF.as_bytes()) {
                    self.system_off = true;
                }
            },
        }
        if self.attempts > 0 {
            self.attempts = self.attempts - 1;
        }
        let complete = match self.kind {
            HandshakeKind::Start => self.pressure_ok && self.temperature_ok,
            HandshakeKind::Shutdown => self.system_off,
        };
        if complete {
            HandshakeStep::Done
        } else if self.attempts == 0 {
            match self.kind {
                HandshakeKind::Start => HandshakeStep::Failed(Exception::StartupError),
                HandshakeKind::Shutdown => HandshakeStep::Failed(Exception::ShutdownError),
            }
        } else {
            HandshakeStep::Continue
        }
    }
}

pub struct FuelCell {
    pub name: FuelCellName,
    pub is_started: bool,
    pub limits: Thresholds,
}

impl FuelCell {
    /// A fuel cell as configured, not yet started.
    pub fn new(config: &FuelCellConfig, name: FuelCellName) -> (r: FuelCell)
        ensures
            r.name == name,
            !r.is_started,
            r.limits == (Thresholds {
                warning: config.warn_temperature,
                alert: config.alert_temperature,
                critical: config.critical_temperature,
            }),
    {
        FuelCell {
            name,
            is_started: false,
            limits: Thresholds {
                warning: config.warn_temperature,
                alert: config.alert_temperature,
                critical: config.critical_temperature,
            },
        }
    }

    /// Records the end of a handshake: data is accepted after a confirmed
    /// start, and no longer after a confirmed shutdown.
    pub fn finish_handshake(&mut self, kind: HandshakeKind, step: HandshakeStep)
        ensures
            final(self).name == old(self).name,
            final(self).limits == old(self).limits,
            final(self).is_started == if step == HandshakeStep::Done {
                kind == HandshakeKind::Start
            } else {
                old(self).is_started
            },
    {
        match step {
            HandshakeStep::Done => {
                self.is_started = match kind {
                    HandshakeKind::Start => true,
                    HandshakeKind::Shutdown => false,
                };
            },
            _ => {},
        }
    }

    /// The temperature fault of a stack temperature.
    pub fn check_temperature(&self, temperature: i64) -> (r: Option<Exception>)
        ensures
            r == fuel_cell_fault(self.limits.breach_above(temperature)),
    {
        match self.limits.check_above(temperature) {
            Some(Breach::Critical) => Some(Exception::CriticalTemperature),
            Some(Breach::Alert) => Some(Exception::AlertTemperature),
            Some(Breach::Warning) => Some(Exception::WarningTemperature),
            None => None,
        }
    }

    /// What the controller's report decodes to: nothing before the start
    /// acknowledgment, the serial fault if the line could not be read.
    pub fn read_raw_data(&self, line: Result<&[u8], Exception>) -> (r: Result<FuelCellData, Exception>)
        ensures
            !self.is_started ==> r == Err::<FuelCellData, Exception>(Exception::InfoNotConnected),
            self.is_started ==> r == match line {
                Ok(s) => Ok(report_data(s@)),
                Err(e) => Err(e),
            },
    {
        if !self.is_started {
            return Err(Exception::InfoNotConnected);
        }
        match line {
            Ok(s) => Ok(parse_report(s)),
            Err(e) => Err(e),
        }
    }

    /// A reading of this fuel cell and the fault it raises: the decoding
    /// fault, bad data when the report has no temperature, or the
    /// temperature check's result.
    pub fn read(&self, line: Result<&[u8], Exception>) -> (r: (SensorData, Option<Exception>))
        ensures
            ({
                let decoded: Result<FuelCellData, Exception> = if !self.is_started {
                    Err(Exception::InfoNotConnected)
                } else {
                    match line {
                        Ok(s) => Ok(report_data(s@)),
                        Err(e) => Err(e),
                    }
                };
                &&& r.0 == match self.name {
                    FuelCellName::A => SensorData::FuelCellA(decoded.ok()),
                    FuelCellName::B => SensorData::FuelCellB(decoded.ok()),
                }
                &&& r.1 == match decoded {
                    Ok(d) => match d.temperature {
                        Some(t) => fuel_cell_fault(self.limits.breach_above(t)),
                        None => Some(Exception::InfoBadData),
                    },
                    Err(e) => Some(e),
                }
            }),
    {
        let decoded = self.read_raw_data(line);
        let data = match self.name {
            FuelCellName::A => SensorData::FuelCellA(decoded.ok()),
            FuelCellName::B => SensorData::FuelCellB(decoded.ok()),
        };
        match decoded {
            Ok(d) => match d.temperature {
                Some(t) => (data, self.check_temperature(t)),
                None => (data, Some(Exception::InfoBadData)),
            },
            Err(e) => (data, Some(e)),
        }
    }
}

} // verus!
