//! Fault kinds, their severity scale, and the message that carries a fault
//! together with the device it came from.
use std::time::Duration;
use vstd::prelude::*;
use vstd::string::*;

verus! {

/// Devices and subsystems from which a message can originate.
#[derive(Debug, Clone, Copy, PartialEq, Eq, Structural, PartialOrd, Ord, Hash)]
pub enum Name {
    FuelCellA,
    FuelCellB,
    Temperatures,
    HighPressureManometer,
    LowPressureManometer,
    BatteryGauge,
    Accelerometer,
    Gyroscope,
    Compass,
    Gps,
    Dms,
    Pt01Actuator,
    Pt02Actuator,
    /// Lifecycle outcomes emitted by the startup and shutdown procedures.
    System,
}

/// Fault kinds, declared from the most to the least severe.
#[derive(Debug, Clone, Copy, PartialEq, Eq, Structural, PartialOrd, Ord, Hash)]
pub enum Exception {
    /// The pilot must evacuate immediately.
    CriticalErrorExit,
    /// Conditions that shut the boat down.
    CriticalValue,
    CriticalTemperature,
    CriticalPressure,
    CriticalCharge,
    StartupError,
    ShutdownError,
    CriticalError,
    /// Alerts.
    AlertTemperature,
    AlertPressure,
    AlertCharge,
    AlertStuck,
    AlertNoDms,
    Alert,
    /// Warnings.
    WarningTemperature,
    WarningPressure,
    WarningCharge,
    Warning,
    /// Informational messages.
    InfoConnected,
    InfoNotConnected,
    InfoBadData,
    InfoStartupFailed,
    InfoStartupSuccess,
    InfoShutdownFailed,
    InfoShutdownSuccess,
    Info,
}

impl Exception {
    /// Severity code of a fault kind: a lower code is more urgent.
    pub open spec fn rank(self) -> u8 {
        match self {
            Exception::CriticalErrorExit => 0x10,
            Exception::CriticalValue => 0x11,
            Exception::CriticalTemperature => 0x12,
            Exception::CriticalPressure => 0x13,
            Exception::CriticalCharge => 0x14,
            Exception::StartupError => 0x20,
            Exception::ShutdownError => 0x21,
            Exception::CriticalError => 0x30,
            Exception::AlertTemperature => 0x31,
            Exception::AlertPressure => 0x32,
            Exception::AlertCharge => 0x33,
            Exception::AlertStuck => 0x3A,
            Exception::AlertNoDms => 0x40,
            Exception::Alert => 0x50,
            Exception::WarningTemperature => 0x51,
            Exception::WarningPressure => 0x52,
            Exception::WarningCharge => 0x53,
            Exception::Warning => 0xA0,
            Exception::InfoConnected => 0xA1,
            Exception::InfoNotConnected => 0xA2,
            Exception::InfoBadData => 0xA3,
            Exception::InfoStartupFailed => 0xB0,
            Exception::InfoStartupSuccess => 0xB1,
            Exception::InfoShutdownFailed => 0xB2,
            Exception::InfoShutdownSuccess => 0xB3,
            Exception::Info => 0xC0,
        }
    }

    /// A fault is critical when it is at least as severe as the generic
    /// critical error; only such faults may force a lifecycle transition.
    pub open spec fn is_critical_kind(self) -> bool {
        self.rank() <= Exception::CriticalError.rank()
    }

    /// Severity code of this fault kind.
    pub fn severity(&self) -> (r: u8)
        ensures
            r == self.rank(),
    {
        match self {
            Exception::CriticalErrorExit => 0x10,
            Exception::CriticalValue => 0x11,
            Exception::CriticalTemperature => 0x12,
            Exception::CriticalPressure => 0x13,
            Exception::CriticalCharge => 0x14,
            Exception::StartupError => 0x20,
            Exception::ShutdownError => 0x21,
            Exception::CriticalError => 0x30,
            Exception::AlertTemperature => 0x31,
            Exception::AlertPressure => 0x32,
            Exception::AlertCharge => 0x33,
            Exception::AlertStuck => 0x3A,
            Exception::AlertNoDms => 0x40,
            Exception::Alert => 0x50,
            Exception::WarningTemperature => 0x51,
            Exception::WarningPressure => 0x52,
            Exception::WarningCharge => 0x53,
            Exception::Warning => 0xA0,
            Exception::InfoConnected => 0xA1,
            Exception::InfoNotConnected => 0xA2,
            Exception::InfoBadData => 0xA3,
            Exception::InfoStartupFailed => 0xB0,
            Exception::InfoStartupSuccess => 0xB1,
            Exception::InfoShutdownFailed => 0xB2,
            Exception::InfoShutdownSuccess => 0xB3,
            Exception::Info => 0xC0,
        }
    }

    /// The variant's name.
    pub open spec fn text(self) -> Seq<char> {
        match self {
            Exception::CriticalErrorExit => "CriticalErrorExit"@,
            Exception::CriticalValue => "CriticalValue"@,
            Exception::CriticalTemperature => "CriticalTemperature"@,
            Exception::CriticalPressure => "CriticalPressure"@,
            Exception::CriticalCharge => "CriticalCharge"@,
            Exception::StartupError => "StartupError"@,
            Exception::ShutdownError => "ShutdownError"@,
            Exception::CriticalError => "CriticalError"@,
            Exception::AlertTemperature => "AlertTemperature"@,
            Exception::AlertPressure => "AlertPressure"@,
            Exception::AlertCharge => "AlertCharge"@,
            Exception::AlertStuck => "AlertStuck"@,
            Exception::AlertNoDms => "AlertNoDms"@,
            Exception::Alert => "Alert"@,
            Exception::WarningTemperature => "WarningTemperature"@,
            Exception::WarningPressure => "WarningPressure"@,
            Exception::WarningCharge => "WarningCharge"@,
            Exception::Warning => "Warning"@,
            Exception::InfoConnected => "InfoConnected"@,
            Exception::InfoNotConnected => "InfoNotConnected"@,
            Exception::InfoBadData => "InfoBadData"@,
            Exception::InfoStartupFailed => "InfoStartupFailed"@,
            Exception::InfoStartupSuccess => "InfoStartupSuccess"@,
            Exception::InfoShutdownFailed => "InfoShutdownFailed"@,
            Exception::InfoShutdownSuccess => "InfoShutdownSuccess"@,
            Exception::Info => "Info"@,
        }
    }

    /// The variant's name, as shown to the operator.
    pub fn label(&self) -> (r: &'static str)
        ensures
            r@ == self.text(),
    {
        match self {
            Exception::CriticalErrorExit => "CriticalErrorExit",
            Exception::CriticalValue => "CriticalValue",
            Exception::CriticalTemperature => "CriticalTemperature",
            Exception::CriticalPressure => "CriticalPressure",
            Exception::CriticalCharge => "CriticalCharge",
            Exception::StartupError => "StartupError",
            Exception::ShutdownError => "ShutdownError",
            Exception::CriticalError => "CriticalError",
            Exception::AlertTemperature => "AlertTemperature",
            Exception::AlertPressure => "AlertPressure",
            Exception::AlertCharge => "AlertCharge",
            Exception::AlertStuck => "AlertStuck",
            Exception::AlertNoDms => "AlertNoDms",
            Exception::Alert => "Alert",
            Exception::WarningTemperature => "WarningTemperature",
            Exception::WarningPressure => "WarningPressure",
            Exception::WarningCharge => "WarningCharge",
            Exception::Warning => "Warning",
            Exception::InfoConnected => "InfoConnected",
            Exception::InfoNotConnected => "InfoNotConnected",
            Exception::InfoBadData => "InfoBadData",
            Exception::InfoStartupFailed => "InfoStartupFailed",
            Exception::InfoStartupSuccess => "InfoStartupSuccess",
            Exception::InfoShutdownFailed => "InfoShutdownFailed",
            Exception::InfoShutdownSuccess => "InfoShutdownSuccess",
            Exception::Info => "Info",
        }
    }
}

impl Name {
    /// The variant's name.
    pub open spec fn text(self) -> Seq<char> {
        match self {
            Name::FuelCellA => "FuelCellA"@,
            Name::FuelCellB => "FuelCellB"@,
            Name::Temperatures => "Temperatures"@,
            Name::HighPressureManometer => "HighPressureManometer"@,
            Name::LowPressureManometer => "LowPressureManometer"@,
            Name::BatteryGauge => "BatteryGauge"@,
            Name::Accelerometer => "Accelerometer"@,
            Name::Gyroscope => "Gyroscope"@,
            Name::Compass => "Compass"@,
            Name::Gps => "Gps"@,
            Name::Dms => "Dms"@,
            Name::Pt01Actuator => "Pt01Actuator"@,
            Name::Pt02Actuator => "Pt02Actuator"@,
            Name::System => "System"@,
        }
    }

    /// The variant's name, as shown to the operator.
    pub fn label(&self) -> (r: &'static str)
        ensures
            r@ == self.text(),
    {
        match self {
            Name::FuelCellA => "FuelCellA",
            Name::FuelCellB => "FuelCellB",
            Name::Temperatures => "Temperatures",
            Name::HighPressureManometer => "HighPressureManometer",
            Name::LowPressureManometer => "LowPressureManometer",
            Name::BatteryGauge => "BatteryGauge",
            Name::Accelerometer => "Accelerometer",
            Name::Gyroscope => "Gyroscope",
            Name::Compass => "Compass",
            Name::Gps => "Gps",
            Name::Dms => "Dms",
            Name::Pt01Actuator => "Pt01Actuator",
            Name::Pt02Actuator => "Pt02Actuator",
            Name::System => "System",
        }
    }
}

/// Connection events of a device.
#[derive(Debug, Clone, Copy, PartialEq, Eq, Structural)]
pub enum DeviceException {
    NotConnected,
    Disconnected,
    Connected,
}

/// A connection event together with the device it concerns.
#[derive(Debug, Clone, Copy, PartialEq, Eq, Structural)]
pub struct SensorMessage {
    pub name: Name,
    pub exception: DeviceException,
}

/// A fault raised by a device: where it came from, what it is, and for how
/// long it should stay on display.
#[derive(Debug, Clone, Copy, PartialEq, Eq)]
pub struct Message {
    name: Name,
    exception: Exception,
    timeout_duration: Option<Duration>,
}

impl Message {
    pub closed spec fn origin(self) -> Name {
        self.name
    }

    pub closed spec fn kind(self) -> Exception {
        self.exception
    }

    pub closed spec fn display_timeout(self) -> Option<Duration> {
        self.timeout_duration
    }

    pub fn new(name: Name, exception: Exception) -> (r: Message)
        ensures
            r.origin() == name,
            r.kind() == exception,
            r.display_timeout() is None,
    {
        Message { name, exception, timeout_duration: None }
    }

    /// The same message, shown for `duration`.
    pub fn timeout(self, duration: Duration) -> (r: Self)
        ensures
            r.origin() == self.origin(),
            r.kind() == self.kind(),
            r.display_timeout() == Some(duration),
    {
        Message { timeout_duration: Some(duration), ..self }
    }

    pub fn get_name(&self) -> (r: Name)
        ensures
            r == self.origin(),
    {
        self.name
    }

    pub fn get_exception(&self) -> (r: Exception)
        ensures
            r == self.kind(),
    {
        self.exception
    }

    pub fn get_timeout_duration(&self) -> (r: Option<Duration>)
        ensures
            r == self.display_timeout(),
    {
        self.timeout_duration
    }

    /// `"<origin>: <kind>"`.
    pub fn to_string(&self) -> (r: String)
        ensures
            r@ == self.origin().text() + ": "@ + self.kind().text(),
    {
        String::from_str(self.name.label()).concat(": ").concat(self.exception.label())
    }

    pub fn is_critical(&self) -> (r: bool)
        ensures
            r == self.kind().is_critical_kind(),
    {
        self.exception.severity() <= Exception::CriticalError.severity()
    }
}

} // verus!
