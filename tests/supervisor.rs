use std::time::Duration;

use exo_pi_brain::actuator::Actuator;
use exo_pi_brain::boat::{Action, Boat, Controls, State};
use exo_pi_brain::button::Button;
use exo_pi_brain::config::{default_true, ActuatorConfig, ButtonConfig, ContactorConfig};
use exo_pi_brain::contactor::Contactor;
use exo_pi_brain::fuel_cell::FuelCellName;
use exo_pi_brain::message::{Exception, Message, Name};
use exo_pi_brain::precharge::{wait_dms, DmsWait};
use exo_pi_brain::sensor_data::{BatteryGaugeData, FuelCellData, GpsData, SensorData, TemperatureSensorName};
use exo_pi_brain::sensor_thread::{remaining_delay, CycleStep, SensorThread};
use exo_pi_brain::shutdown::{BoatStopper, ContactorId, ShutdownCommand, ShutdownInputs, ShutdownPhase};
use exo_pi_brain::startup::{
    StartupData, StartupInputs, StartupLimits, BoatStarter, Valve, ValveCommand, ValveStarter, ValveStatus,
};
use exo_pi_brain::telemetry::{frame_null_terminated, FinalTelemetryData, TelemetryData};

fn controls(start: bool, stop: bool, dms_released: bool) -> Controls {
    Controls { start_pressed: start, stop_pressed: stop, dms_released }
}

fn system(kind: Exception) -> Message {
    Message::new(Name::System, kind)
}

#[test]
fn message_accessors() {
    let m = Message::new(Name::Gps, Exception::InfoBadData);
    assert_eq!(m.get_name(), Name::Gps);
    assert_eq!(m.get_exception(), Exception::InfoBadData);
    assert_eq!(m.get_timeout_duration(), None);
    assert_eq!(m.to_string(), "Gps: InfoBadData");
    let t = m.timeout(Duration::from_secs(3));
    assert_eq!(t.get_timeout_duration(), Some(Duration::from_secs(3)));
    assert_eq!(t.get_exception(), Exception::InfoBadData);
}

#[test]
fn criticality_follows_severity() {
    assert!(Message::new(Name::System, Exception::CriticalErrorExit).is_critical());
    assert!(Message::new(Name::System, Exception::ShutdownError).is_critical());
    assert!(Message::new(Name::System, Exception::CriticalError).is_critical());
    assert!(!Message::new(Name::System, Exception::AlertTemperature).is_critical());
    assert!(!Message::new(Name::System, Exception::Info).is_critical());
    assert_eq!(Exception::CriticalError.severity(), 0x30);
    assert_eq!(Exception::AlertStuck.severity(), 0x3A);
}

#[test]
fn running_critical_fault_stops() {
    let mut boat = Boat::new();
    boat.state = State::Running;
    let action = boat.on_message(&Message::new(Name::HighPressureManometer, Exception::CriticalPressure));
    assert_eq!(action, Action::Stop);
    assert_eq!(boat.state, State::Stopping);
}

#[test]
fn running_non_critical_fault_keeps_state() {
    for kind in [Exception::AlertPressure, Exception::WarningCharge, Exception::InfoConnected, Exception::InfoStartupSuccess] {
        let mut boat = Boat::new();
        boat.state = State::Running;
        assert_eq!(boat.on_message(&Message::new(Name::Temperatures, kind)), Action::Nothing);
        assert_eq!(boat.state, State::Running);
    }
    let mut boat = Boat::new();
    boat.state = State::Running;
    assert_eq!(boat.on_message(&system(Exception::InfoShutdownSuccess)), Action::Nothing);
    assert_eq!(boat.state, State::Running);
}

#[test]
fn critical_fault_outside_running_is_display_only() {
    let mut boat = Boat::new();
    assert_eq!(boat.on_message(&Message::new(Name::BatteryGauge, Exception::CriticalCharge)), Action::Nothing);
    assert_eq!(boat.state, State::Idle);
}

#[test]
fn operator_lifecycle_end_to_end() {
    let mut boat = Boat::new();
    assert_eq!(boat.state, State::Idle);
    assert_eq!(boat.on_controls(controls(false, false, true)), Action::Nothing);
    assert_eq!(boat.state, State::Idle);
    assert_eq!(boat.on_controls(controls(true, false, false)), Action::Start);
    assert_eq!(boat.state, State::Starting);
    assert_eq!(boat.on_message(&system(Exception::InfoStartupSuccess)), Action::Nothing);
    assert_eq!(boat.state, State::Running);
    assert_eq!(boat.on_controls(controls(false, true, false)), Action::Stop);
    assert_eq!(boat.state, State::Stopping);
    assert_eq!(boat.on_message(&system(Exception::InfoShutdownSuccess)), Action::Nothing);
    assert_eq!(boat.state, State::Idle);
}

#[test]
fn tick_with_several_faults() {
    let mut boat = Boat::new();
    boat.state = State::Running;
    let faults = vec![
        Message::new(Name::Gps, Exception::InfoBadData),
        Message::new(Name::HighPressureManometer, Exception::CriticalPressure),
        Message::new(Name::Temperatures, Exception::CriticalTemperature),
        system(Exception::InfoStartupSuccess),
    ];
    let actions = boat.tick(controls(false, false, false), &faults);
    assert_eq!(boat.state, State::Stopping);
    assert_eq!(actions.iter().filter(|a| **a == Action::Stop).count(), 1);
    assert_eq!(actions.len(), 5);

    let mut quiet = Boat::new();
    quiet.state = State::Running;
    let faults = vec![Message::new(Name::Gps, Exception::InfoBadData), Message::new(Name::BatteryGauge, Exception::AlertCharge)];
    let actions = quiet.tick(controls(false, false, false), &faults);
    assert_eq!(quiet.state, State::Running);
    assert!(actions.iter().all(|a| *a == Action::Nothing));

    let mut stopped = Boat::new();
    stopped.state = State::Running;
    let faults = vec![Message::new(Name::Temperatures, Exception::CriticalTemperature)];
    let actions = stopped.tick(controls(false, true, false), &faults);
    assert_eq!(stopped.state, State::Stopping);
    assert_eq!(actions, vec![Action::Stop, Action::Nothing]);
}

#[test]
fn lifecycle_other_transitions() {
    let mut boat = Boat::new();
    assert_eq!(boat.on_controls(controls(false, true, false)), Action::Quit);
    boat.state = State::Running;
    assert_eq!(boat.on_controls(controls(false, false, true)), Action::Stop);
    assert_eq!(boat.state, State::Stopping);
    boat.state = State::Starting;
    assert_eq!(boat.on_message(&system(Exception::InfoStartupFailed)), Action::Stop);
    assert_eq!(boat.state, State::Stopping);
    assert_eq!(boat.on_message(&system(Exception::InfoShutdownFailed)), Action::Halt);
    assert_eq!(boat.state, State::Stopping);
    // A success from another origin is not a lifecycle outcome.
    boat.state = State::Starting;
    assert_eq!(boat.on_message(&Message::new(Name::Gps, Exception::InfoStartupSuccess)), Action::Nothing);
    assert_eq!(boat.state, State::Starting);
}

#[test]
fn readings_merge_into_snapshots() {
    let mut boat = Boat::new();
    boat.update_data(SensorData::Temperature(TemperatureSensorName::H2Plate, Some(30_000)));
    assert_eq!(boat.interface_data.h2_plate_temperature, Some(30_000));
    assert_eq!(boat.startup_data.h2_plate_temperature, Some(30_000));
    assert_eq!(boat.telemetry_data.temperature.get(TemperatureSensorName::H2Plate), Some(30_000));
    boat.update_data(SensorData::Temperature(TemperatureSensorName::H2Tanks, Some(20_000)));
    assert_eq!(boat.interface_data.h2_tanks_temperature, Some(20_000));
    assert_eq!(boat.startup_data.h2_plate_temperature, Some(30_000));
    boat.update_data(SensorData::HighPressureManometer(Some(250_000)));
    boat.update_data(SensorData::LowPressureManometer(Some(5_000)));
    assert_eq!(boat.startup_data.high_pressure, Some(250_000));
    assert_eq!(boat.interface_data.low_pressure, Some(5_000));
    boat.update_data(SensorData::Batteries(Some(BatteryGaugeData { voltage: 24_000, current: -1_000, charge_level: 80_000 })));
    assert_eq!(boat.interface_data.battery_capacity, Some(80_000));
    assert_eq!(boat.interface_data.battery_current, Some(-1_000));
    boat.update_data(SensorData::Gps(Some(GpsData {
        nmea_time: None,
        speed_knots: Some(10_000),
        course_angle: None,
        latitude_deg: None,
        longitude_deg: None,
    })));
    assert_eq!(boat.interface_data.speed, Some(18_520));
    boat.update_data(SensorData::FuelCellB(None));
    assert_eq!(boat.interface_data.fuel_cell_b_temperature, None);
    assert_eq!(boat.state, State::Idle);
}

fn sensed(open: bool, in_position: bool) -> ValveStatus {
    ValveStatus { open, in_position }
}

fn inputs(v1: ValveStatus, v2: ValveStatus) -> StartupInputs {
    StartupInputs {
        dms_engaged: true,
        data: StartupData { h2_plate_temperature: Some(25_000), high_pressure: Some(200_000), low_pressure: Some(5_000) },
        valve1: v1,
        valve2: v2,
    }
}

#[test]
fn startup_rollback_on_second_check() {
    let mut s = BoatStarter::new(StartupLimits::standard(10_000));
    let (c0, f0) = s.start(&inputs(sensed(false, true), sensed(true, true)));
    assert_eq!(c0, vec![ValveCommand { valve: Valve::Mv02, open: false, settle_ms: 2000 }]);
    assert_eq!(f0, None);
    let (c1, f1) = s.start(&inputs(sensed(false, true), sensed(false, true)));
    assert_eq!(c1, vec![ValveCommand { valve: Valve::Mv01, open: true, settle_ms: 2000 }]);
    assert_eq!(f1, None);
    // Valve #1 does not report its position.
    let (c2, f2) = s.start(&inputs(sensed(true, false), sensed(false, true)));
    assert_eq!(
        c2,
        vec![
            ValveCommand { valve: Valve::Mv01, open: false, settle_ms: 2000 },
            ValveCommand { valve: Valve::Mv02, open: true, settle_ms: 0 },
        ]
    );
    assert_eq!(f2, Some(Exception::InfoStartupFailed));
    assert!(s.is_finished());
    let (c3, f3) = s.start(&inputs(sensed(false, true), sensed(true, true)));
    assert!(c3.is_empty());
    assert_eq!(f3, None);
}

#[test]
fn startup_success() {
    let mut s = BoatStarter::new(StartupLimits::standard(10_000));
    s.start(&inputs(sensed(false, true), sensed(true, true)));
    s.start(&inputs(sensed(false, true), sensed(false, true)));
    let (c, f) = s.start(&inputs(sensed(true, true), sensed(false, true)));
    assert!(c.is_empty());
    assert_eq!(f, Some(Exception::InfoStartupSuccess));
    assert!(!s.guard.reset);
}

#[test]
fn startup_gate_failures() {
    let mut no_dms = inputs(sensed(false, true), sensed(true, true));
    no_dms.dms_engaged = false;
    let mut hot = inputs(sensed(false, true), sensed(true, true));
    hot.data.h2_plate_temperature = Some(70_000);
    let mut unknown_pressure = inputs(sensed(false, true), sensed(true, true));
    unknown_pressure.data.high_pressure = None;
    let wrong_valves = inputs(sensed(true, true), sensed(true, true));
    for i in [no_dms, hot, unknown_pressure, wrong_valves] {
        let mut s = BoatStarter::new(StartupLimits::standard(10_000));
        let (c, f) = s.start(&i);
        assert!(c.is_empty());
        assert_eq!(f, Some(Exception::InfoStartupFailed));
    }
    let mut high_low_side = inputs(sensed(true, true), sensed(false, true));
    high_low_side.data.low_pressure = Some(20_000);
    let mut s = BoatStarter::new(StartupLimits::standard(10_000));
    s.start(&inputs(sensed(false, true), sensed(true, true)));
    s.start(&inputs(sensed(false, true), sensed(false, true)));
    let (c, f) = s.start(&high_low_side);
    assert_eq!(c.len(), 2);
    assert_eq!(f, Some(Exception::InfoStartupFailed));
}

#[test]
fn valve_guard_commit() {
    let mut g = ValveStarter::start();
    assert_eq!(g.release().len(), 2);
    g.ok();
    assert!(g.release().is_empty());
}

#[test]
fn shutdown_sequence() {
    let all_off = ShutdownInputs {
        fuel_cell_a_off: true,
        fuel_cell_b_off: true,
        valve1: sensed(false, true),
        valve2: sensed(true, true),
    };
    let mut s = BoatStopper::new();
    let (c, f) = s.stop(&all_off);
    assert_eq!(c[0], ShutdownCommand::OpenContactor(ContactorId::Charge));
    assert_eq!(c[1], ShutdownCommand::OpenContactor(ContactorId::SourceIsolation));
    assert_eq!(c[2], ShutdownCommand::StopFuelCell(FuelCellName::A));
    assert_eq!(f, None);
    assert_eq!(s.stop(&all_off).0.len(), 3);
    assert_eq!(s.stop(&all_off).1, None);
    assert_eq!(s.stop(&all_off).1, Some(Exception::InfoShutdownSuccess));
    assert_eq!(s.phase, ShutdownPhase::Finished);

    let mut failing = BoatStopper::new();
    failing.stop(&all_off);
    let stuck = ShutdownInputs { fuel_cell_b_off: false, ..all_off };
    let (c, f) = failing.stop(&stuck);
    assert!(c.is_empty());
    assert_eq!(f, Some(Exception::InfoShutdownFailed));
    assert!(failing.is_finished());
}

#[test]
fn polling_thread_starts_once() {
    let mut t = SensorThread::new(Name::Gps);
    assert!(t.is_stopped(false));
    assert!(t.start());
    assert!(!t.start());
    assert!(!t.is_stopped(false));
    assert!(t.is_stopped(true));
}

#[test]
fn polling_cycle_decisions() {
    let t = SensorThread::new(Name::LowPressureManometer);
    assert_eq!(t.begin_cycle(true, true), CycleStep::Exit);
    assert_eq!(t.begin_cycle(false, false), CycleStep::Initialize);
    assert_eq!(t.begin_cycle(false, true), CycleStep::Read);
    let m = t.after_initialize(true).unwrap();
    assert_eq!(m.get_name(), Name::LowPressureManometer);
    assert_eq!(m.get_exception(), Exception::InfoConnected);
    assert!(t.after_initialize(false).is_none());
    let (data, fault) = t.after_read((SensorData::LowPressureManometer(None), Some(Exception::InfoBadData)));
    assert_eq!(data, SensorData::LowPressureManometer(None));
    assert_eq!(fault.unwrap().get_exception(), Exception::InfoBadData);
    assert!(t.after_read((SensorData::LowPressureManometer(Some(1)), None)).1.is_none());
    assert_eq!(remaining_delay(120), 380);
    assert_eq!(remaining_delay(700), 0);
}

#[test]
fn pins_and_levels() {
    let a = Actuator::initialize(&ActuatorConfig { control_pin: 5, error_pin: 6, normally_open: true });
    assert!(a.open_valve());
    assert!(!a.close_valve());
    assert!(a.is_open(false));
    assert!(!a.is_open(true));
    assert!(a.is_in_correct_position(false));
    let c = Contactor::initialize(&ContactorConfig { pin: 7, normally_open: false });
    assert!(!c.close_circuit());
    assert!(c.open_circuit());
    let b = Button::new(&ButtonConfig { pin: 8, normally_open: default_true() });
    assert!(b.read(true));
    assert!(!b.read(false));
}

#[test]
fn precharge_waits_on_dms() {
    assert_eq!(wait_dms(true, 0, 1000), DmsWait::Released);
    assert_eq!(wait_dms(false, 500, 1000), DmsWait::Waiting);
    assert_eq!(wait_dms(false, 1000, 1000), DmsWait::Held);
}

#[test]
fn telemetry_record() {
    let mut data = TelemetryData::new();
    data.temperature.insert(TemperatureSensorName::Batteries, Some(28_000));
    let a = FuelCellData { temperature: Some(40_000), voltage: Some(41_000), current: Some(3_000), power: Some(120_000), energy: None };
    let b = FuelCellData { temperature: Some(42_000), voltage: Some(40_000), current: Some(2_000), power: Some(80_000), energy: None };
    data.fuel_cell_a = Some(a);
    data.fuel_cell_b = Some(b);
    let mut record = FinalTelemetryData::none("team-7".to_string());
    record.update(&data);
    assert_eq!(record.batt24v_temperature, Some(28_000));
    assert_eq!(record.batt24v_voltage, None);
    assert_eq!(record.fuellcell_a_temperature, Some(40_000));
    assert_eq!(record.fuellcell_b_temperature, Some(42_000));
    assert_eq!(record.voltage, Some(41_000));
    assert_eq!(record.current, Some(5_000));
    assert_eq!(record.motor_power, Some(200_000));
    assert_eq!(record.lat, None);
    assert_eq!(record.team, "team-7");
    data.fuel_cell_b = None;
    record.update(&data);
    assert_eq!(record.current, None);
    assert_eq!(record.voltage, None);
    assert_eq!(frame_null_terminated(b"{}"), vec![b'{', b'}', 0]);
}
