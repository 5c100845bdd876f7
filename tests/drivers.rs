use exo_pi_brain::battery::BatteryGauge;
use exo_pi_brain::config::{BatteryGaugeConfig, FuelCellConfig, ManometerConfig, SerialConfig, TemperatureConfig};
use exo_pi_brain::fuel_cell::{FuelCell, FuelCellName, Handshake, HandshakeKind, HandshakeStep};
use exo_pi_brain::gps;
use exo_pi_brain::manometer::{Manometer, ManometerName};
use exo_pi_brain::message::Exception;
use exo_pi_brain::sensor_data::{SensorData, TemperatureSensorName};
use exo_pi_brain::temperature::{check_temperature, read_sensor, Temperature};
use exo_pi_brain::text::parse_fixed;
use exo_pi_brain::thresholds::{Breach, Thresholds};

fn manometer_config() -> ManometerConfig {
    ManometerConfig {
        channel: 1,
        max_bar: 300_000,
        max_delta: 50_000,
        warn_pressure: 200_000,
        alert_pressure: 250_000,
        critical_pressure: 280_000,
    }
}

#[test]
fn thresholds_report_highest_breach() {
    let t = Thresholds { warning: 10, alert: 20, critical: 30 };
    assert_eq!(t.check_above(5), None);
    assert_eq!(t.check_above(10), None);
    assert_eq!(t.check_above(11), Some(Breach::Warning));
    assert_eq!(t.check_above(20), Some(Breach::Warning));
    assert_eq!(t.check_above(25), Some(Breach::Alert));
    assert_eq!(t.check_above(31), Some(Breach::Critical));
    let low = Thresholds { warning: 30, alert: 20, critical: 10 };
    assert_eq!(low.check_below(35), None);
    assert_eq!(low.check_below(25), Some(Breach::Warning));
    assert_eq!(low.check_below(15), Some(Breach::Alert));
    assert_eq!(low.check_below(5), Some(Breach::Critical));
}

#[test]
fn manometer_pressure_levels() {
    let mut m = Manometer::new(&manometer_config(), ManometerName::HighPressure);
    assert_eq!(m.check_pressure(100_000), None);
    let mut m2 = Manometer::new(&manometer_config(), ManometerName::HighPressure);
    assert_eq!(m2.check_pressure(210_000), Some(Exception::WarningPressure));
    let mut m3 = Manometer::new(&manometer_config(), ManometerName::HighPressure);
    assert_eq!(m3.check_pressure(260_000), Some(Exception::AlertPressure));
    let mut m4 = Manometer::new(&manometer_config(), ManometerName::HighPressure);
    assert_eq!(m4.check_pressure(290_000), Some(Exception::CriticalPressure));
}

#[test]
fn manometer_rate_of_change_trips_on_third_read() {
    let mut m = Manometer::new(&manometer_config(), ManometerName::LowPressure);
    assert_eq!(m.check_pressure(100_000), None);
    assert_eq!(m.check_pressure(140_000), None);
    // 40 bar up then 40 bar down: 80 bar of change, over the 50 bar limit,
    // although the last value is low.
    assert_eq!(m.check_pressure(100_000), Some(Exception::CriticalPressure));
}

#[test]
fn manometer_slow_change_is_not_critical() {
    let mut m = Manometer::new(&manometer_config(), ManometerName::LowPressure);
    assert_eq!(m.check_pressure(100_000), None);
    assert_eq!(m.check_pressure(110_000), None);
    assert_eq!(m.check_pressure(120_000), None);
}

#[test]
fn manometer_adc_request_and_decode() {
    let mut m = Manometer::new(&manometer_config(), ManometerName::HighPressure);
    assert_eq!(m.adc_request(), [1, 0x90, 0]);
    assert_eq!(m.read_adc(3, &[0, 0, 63]), Ok(311_400));
    assert_eq!(m.read_adc(3, &[0, 3, 0xFF]), Ok(5_056_542));
    assert_eq!(m.read_adc(2, &[0, 0, 63]), Err(Exception::InfoBadData));
    assert_eq!(m.read_adc(3, &[0, 8, 0]), Err(Exception::InfoBadData));
    let (data, fault) = m.read(Ok((3, [0, 0, 63])));
    assert_eq!(data, SensorData::HighPressureManometer(Some(311_400)));
    assert_eq!(fault, Some(Exception::CriticalPressure));
    let (data, fault) = m.read(Ok((1, [0, 0, 0])));
    assert_eq!(data, SensorData::HighPressureManometer(None));
    assert_eq!(fault, Some(Exception::InfoBadData));
    let (data, fault) = m.read(Err(Exception::InfoNotConnected));
    assert_eq!(data, SensorData::HighPressureManometer(None));
    assert_eq!(fault, Some(Exception::InfoNotConnected));
}

fn battery() -> BatteryGauge {
    BatteryGauge::new(&BatteryGaugeConfig {
        i2c_address: 0x64,
        warning_level: 40_000,
        alert_level: 30_000,
        critical_level: 20_000,
    })
}

#[test]
fn battery_scaling() {
    let b = battery();
    let d = b.read_data(65_535, 32_767, 32_767);
    assert_eq!(d.voltage, 70_800);
    assert_eq!(d.current, 0);
    assert_eq!(d.charge_level, 50_000);
    let d = b.read_data(32_767, 65_535, 32_757);
    assert_eq!(d.voltage, 35_399);
    assert_eq!(d.current, 64_001);
    assert_eq!(d.charge_level, 38_148);
    assert_eq!(b.read_data(0, 0, 0).current, -64_000);
}

#[test]
fn battery_charge_levels() {
    let b = battery();
    let (data, fault) = b.read(Ok((65_535, 32_767, 32_767)));
    assert!(matches!(data, SensorData::Batteries(Some(_))));
    assert_eq!(fault, None);
    assert_eq!(b.read(Ok((0, 32_767, 32_757))).1, Some(Exception::WarningCharge));
    // 43200 - (32767 - raw) * 1024 = 25920 gives 30 %; one step lower is under it.
    assert_eq!(b.read(Ok((0, 32_767, 32_767 - 18))).1, Some(Exception::AlertCharge));
    assert_eq!(b.read(Ok((0, 32_767, 0))).1, Some(Exception::CriticalCharge));
    assert_eq!(
        b.read(Err(Exception::InfoNotConnected)),
        (SensorData::Batteries(None), Some(Exception::InfoNotConnected))
    );
}

fn probe(name: TemperatureSensorName) -> TemperatureConfig {
    TemperatureConfig { name, address: 0x1234, warn: 40_000, alert: 50_000, max: 60_000 }
}

#[test]
fn temperature_file_decoding() {
    let ok = b"72 01 4b 46 7f ff 0e 10 57 : crc=57 YES\n72 01 4b 46 7f ff 0e 10 57 t=23125\n";
    assert_eq!(read_sensor(ok), Ok(23_125));
    let negative = b"aa : crc=57 YES\nbb t=-1500";
    assert_eq!(read_sensor(negative), Ok(-1_500));
    let bad_crc = b"72 01 : crc=57 NO\n72 01 t=23125\n";
    assert_eq!(read_sensor(bad_crc), Err(Exception::InfoBadData));
    assert_eq!(read_sensor(b"crc=57 YES\n"), Err(Exception::InfoBadData));
    assert_eq!(read_sensor(b"crc=57 YES\nno value here"), Err(Exception::InfoBadData));
    assert_eq!(read_sensor(b""), Err(Exception::InfoBadData));
}

#[test]
fn temperature_levels() {
    let p = probe(TemperatureSensorName::H2Plate);
    assert_eq!(check_temperature(&p, 30_000), None);
    assert_eq!(check_temperature(&p, 45_000), Some(Exception::WarningTemperature));
    assert_eq!(check_temperature(&p, 55_000), Some(Exception::AlertTemperature));
    assert_eq!(check_temperature(&p, 65_000), Some(Exception::CriticalTemperature));
}

#[test]
fn temperature_probes_read_in_turn() {
    let mut t = Temperature::new(&vec![
        probe(TemperatureSensorName::Batteries),
        probe(TemperatureSensorName::FuelCellControllers),
    ]);
    assert_eq!(t.next_probe(), TemperatureSensorName::Batteries);
    let file = b"x : crc=1 YES\nx t=55000\n";
    let (data, fault) = t.read(Ok(&file[..]));
    assert_eq!(data, SensorData::Temperature(TemperatureSensorName::Batteries, Some(55_000)));
    assert_eq!(fault, Some(Exception::AlertTemperature));
    let (data, fault) = t.read(Err(Exception::InfoNotConnected));
    assert_eq!(data, SensorData::Temperature(TemperatureSensorName::FuelCellControllers, None));
    assert_eq!(fault, Some(Exception::InfoNotConnected));
    // H2Tanks has no configuration.
    let (data, fault) = t.read(Ok(&file[..]));
    assert_eq!(data, SensorData::Temperature(TemperatureSensorName::H2Tanks, None));
    assert_eq!(fault, Some(Exception::InfoNotConnected));
    assert_eq!(t.next_probe(), TemperatureSensorName::Extra);
}

#[test]
fn fixed_point_parsing() {
    assert_eq!(parse_fixed(b"41.2", 3), Some(41_200));
    assert_eq!(parse_fixed(b"-0.5", 3), Some(-500));
    assert_eq!(parse_fixed(b"12", 0), Some(12));
    assert_eq!(parse_fixed(b"1.23456", 3), Some(1_234));
    assert_eq!(parse_fixed(b"4807.038", 4), Some(48_070_380));
    assert_eq!(parse_fixed(b"", 3), None);
    assert_eq!(parse_fixed(b".5", 3), None);
    assert_eq!(parse_fixed(b"1a", 3), None);
    assert_eq!(parse_fixed(b"1234567890123", 0), None);
}

fn fuel_cell(name: FuelCellName) -> FuelCell {
    FuelCell::new(
        &FuelCellConfig {
            serial: SerialConfig { port: "/dev/ttyUSB0".to_string(), baudrate: 9600 },
            warn_temperature: 50_000,
            alert_temperature: 60_000,
            critical_temperature: 70_000,
        },
        name,
    )
}

#[test]
fn fuel_cell_report_decoding() {
    let mut fc = fuel_cell(FuelCellName::A);
    let line = b"FC_V: 41.20 V|FC_A: 3.5 A|FCT1: 30.0 C|FCT2: 31.0 C|FC_W: 144.2 W|Energy: 12.5 Wh!";
    assert_eq!(fc.read_raw_data(Ok(&line[..])), Err(Exception::InfoNotConnected));
    fc.finish_handshake(HandshakeKind::Start, HandshakeStep::Done);
    let d = fc.read_raw_data(Ok(&line[..])).unwrap();
    assert_eq!(d.voltage, Some(41_200));
    assert_eq!(d.current, Some(3_500));
    assert_eq!(d.temperature, Some(30_500));
    assert_eq!(d.power, Some(144_200));
    assert_eq!(d.energy, Some(12_500));
    let (data, fault) = fc.read(Ok(&line[..]));
    assert!(matches!(data, SensorData::FuelCellA(Some(_))));
    assert_eq!(fault, None);
}

#[test]
fn fuel_cell_faults() {
    let mut fc = fuel_cell(FuelCellName::B);
    let (data, fault) = fc.read(Ok(&b"FCT1: 20.0 C"[..]));
    assert_eq!(data, SensorData::FuelCellB(None));
    assert_eq!(fault, Some(Exception::InfoNotConnected));
    fc.finish_handshake(HandshakeKind::Start, HandshakeStep::Done);
    assert_eq!(fc.read(Ok(&b"FCT1: 65.0 C"[..])).1, Some(Exception::AlertTemperature));
    assert_eq!(fc.read(Ok(&b"FCT2: 75.0 C|FC_V: 40.0 V"[..])).1, Some(Exception::CriticalTemperature));
    assert_eq!(fc.read(Ok(&b"FC_V: 40.0 V"[..])).1, Some(Exception::InfoBadData));
    assert_eq!(fc.read(Ok(&b"FCT1: 65.0"[..])).1, Some(Exception::InfoBadData));
    assert_eq!(fc.read(Err(Exception::InfoNotConnected)).1, Some(Exception::InfoNotConnected));
    fc.finish_handshake(HandshakeKind::Shutdown, HandshakeStep::Done);
    assert!(!fc.is_started);
}

#[test]
fn fuel_cell_start_handshake() {
    let mut h = Handshake::new(HandshakeKind::Start);
    assert_eq!(h.on_line(Ok(&b"booting"[..])), HandshakeStep::Continue);
    assert_eq!(h.on_line(Ok(&b"Anode Supply Pressure OK"[..])), HandshakeStep::Continue);
    assert_eq!(h.on_line(Ok(&b">> Temperature Check OK"[..])), HandshakeStep::Done);
    let mut slow = Handshake::new(HandshakeKind::Start);
    for _ in 0..4 {
        assert_eq!(slow.on_line(Ok(&b"waiting"[..])), HandshakeStep::Continue);
    }
    assert_eq!(slow.on_line(Ok(&b"waiting"[..])), HandshakeStep::Failed(Exception::StartupError));
    let mut late = Handshake::new(HandshakeKind::Start);
    for _ in 0..3 {
        assert_eq!(late.on_line(Ok(&b"waiting"[..])), HandshakeStep::Continue);
    }
    assert_eq!(late.on_line(Ok(&b"Anode Supply Pressure OK"[..])), HandshakeStep::Continue);
    assert_eq!(late.on_line(Ok(&b"Temperature Check OK"[..])), HandshakeStep::Done);
    let mut broken = Handshake::new(HandshakeKind::Shutdown);
    assert_eq!(
        broken.on_line(Err(Exception::InfoNotConnected)),
        HandshakeStep::Failed(Exception::InfoNotConnected)
    );
    let mut off = Handshake::new(HandshakeKind::Shutdown);
    assert_eq!(off.on_line(Ok(&b"System Off"[..])), HandshakeStep::Done);
}

#[test]
fn gps_sentence_decoding() {
    let line = b"$GPRMC,123519,A,4807.038,N,01131.000,E,022.4,084.4,230394,003.1,W*6A";
    assert!(gps::is_rmc(line));
    assert!(!gps::is_rmc(b"$GPGGA,123519,4807.038,N"));
    let d = gps::try_read(line).unwrap();
    assert_eq!(d.nmea_time, Some(123_519_000));
    assert_eq!(d.latitude_deg, Some(48_117_300));
    assert_eq!(d.longitude_deg, Some(-11_516_666));
    assert_eq!(d.speed_knots, Some(22_400));
    assert_eq!(d.course_angle, Some(84_400));
    assert_eq!(gps::try_read(b"$GPRMC,,V"), Err(Exception::InfoBadData));
    assert_eq!(
        gps::read(Ok(&b"$GPRMC,123519,A,4807.038,N,01131.000,E,022.4"[..])),
        (SensorData::Gps(None), Some(Exception::InfoBadData))
    );
    let sparse = gps::try_read(b"$GPRMC,,V,,,,,,").unwrap();
    assert_eq!(sparse.nmea_time, None);
    assert_eq!(sparse.latitude_deg, None);
    assert_eq!(sparse.course_angle, None);
    assert_eq!(
        gps::read(Err(Exception::InfoNotConnected)),
        (SensorData::Gps(None), Some(Exception::InfoNotConnected))
    );
    assert_eq!(gps::to_degrees(-1), None);
}
