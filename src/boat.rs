//! The boat supervisor: the lifecycle state machine, and the snapshots that
//! incoming readings are merged into. The supervisor's loop runs outside and
//! hands each tick's inputs and each fault to `Boat`, which decides.
use vstd::prelude::*;
use crate::message::{Exception, Message, Name};
use crate::sensor_data::{SensorData, TemperatureSensorName};
use crate::startup::StartupData;
use crate::telemetry::TelemetryData;

verus! {

/// Kilometres per hour in one knot, in thousandths.
pub const KMH_PER_KNOT: i64 = 1852;

/// Lifecycle of the boat. Idle is initial.
#[derive(Debug, Clone, Copy, PartialEq, Eq, Structural)]
pub enum State {
    Idle,
    Starting,
    Running,
    Stopping,
}

/// What the supervisor's loop must do after a decision.
#[derive(Debug, Clone, Copy, PartialEq, Eq, Structural)]
pub enum Action {
    Nothing,
    /// Run the startup procedure.
    Start,
    /// Run the shutdown procedure.
    Stop,
    /// Leave the loop: the operator asked for it while idle.
    Quit,
    /// Leave the loop and alert the operator: shutdown could not be confirmed.
    Halt,
}

/// Snapshot shown on the dashboard, in thousandths of each unit.
#[derive(Debug, Clone, Copy, PartialEq, Eq, Structural)]
pub struct InterfaceData {
    /// Thousandths of a kilometre per hour.
    pub speed: Option<i64>,
    pub efficiency: Option<i64>,
    pub battery_capacity: Option<i64>,
    pub battery_voltage: Option<i64>,
    pub battery_current: Option<i64>,
    pub battery_temperature: Option<i64>,
    pub high_pressure: Option<i64>,
    pub low_pressure: Option<i64>,
    pub h2_plate_temperature: Option<i64>,
    pub fuel_cell_a_temperature: Option<i64>,
    pub fuel_cell_b_temperature: Option<i64>,
    pub fuel_cell_controllers_temperature: Option<i64>,
    pub h2_tanks_temperature: Option<i64>,
}

impl InterfaceData {
    pub open spec fn empty() -> InterfaceData {
        InterfaceData {
            speed: None,
            efficiency: None,
            battery_capacity: None,
            battery_voltage: None,
            battery_current: None,
            battery_temperature: None,
            high_pressure: None,
            low_pressure: None,
            h2_plate_temperature: None,
            fuel_cell_a_temperature: None,
            fuel_cell_b_temperature: None,
            fuel_cell_controllers_temperature: None,
            h2_tanks_temperature: None,
        }
    }

    pub fn new() -> (r: Self)
        ensures
            r == InterfaceData::empty(),
    {
        InterfaceData {
            speed: None,
            efficiency: None,
            battery_capacity: None,
            battery_voltage: None,
            battery_current: None,
            battery_temperature: None,
            high_pressure: None,
            low_pressure: None,
            h2_plate_temperature: None,
            fuel_cell_a_temperature: None,
            fuel_cell_b_temperature: None,
            fuel_cell_controllers_temperature: None,
            h2_tanks_temperature: None,
        }
    }
}

/// Buttons and dead-man switch as read at the start of a tick.
#[derive(Debug, Clone, Copy, PartialEq, Eq, Structural)]
pub struct Controls {
    pub start_pressed: bool,
    pub stop_pressed: bool,
    pub dms_released: bool,
}

/// Reaction to the operator's controls.
pub open spec fn controls_transition(state: State, c: Controls) -> (State, Action) {
    match state {
        State::Idle => if c.start_pressed {
            (State::Starting, Action::Start)
        } else if c.stop_pressed {
            (State::Idle, Action::Quit)
        } else {
            (State::Idle, Action::Nothing)
        },
        State::Running => if c.dms_released || c.stop_pressed {
            (State::Stopping, Action::Stop)
        } else {
            (State::Running, Action::Nothing)
        },
        _ => (state, Action::Nothing),
    }
}

/// Reaction to one fault: a critical fault stops a running boat, and the
/// procedures' outcome faults drive the lifecycle.
pub open spec fn message_transition(state: State, name: Name, kind: Exception) -> (State, Action) {
    if state == State::Running && kind.is_critical_kind() {
        (State::Stopping, Action::Stop)
    } else if name == Name::System {
        match kind {
            Exception::InfoStartupSuccess => if state == State::Starting {
                (State::Running, Action::Nothing)
            } else {
                (state, Action::Nothing)
            },
            Exception::InfoStartupFailed => if state == State::Starting {
                (State::Stopping, Action::Stop)
            } else {
                (state, Action::Nothing)
            },
            Exception::InfoShutdownSuccess => if state == State::Stopping {
                (State::Idle, Action::Nothing)
            } else {
                (state, Action::Nothing)
            },
            Exception::InfoShutdownFailed => (state, Action::Halt),
            _ => (state, Action::Nothing),
        }
    } else {
        (state, Action::Nothing)
    }
}

/// The state after reacting to `msgs` in arrival order, and the actions asked for.
pub open spec fn message_run(state: State, msgs: Seq<Message>) -> (State, Seq<Action>)
    decreases msgs.len(),
{
    if msgs.len() == 0 {
        (state, seq![])
    } else {
        let (s1, actions) = message_run(state, msgs.drop_last());
        let (s2, a) = message_transition(s1, msgs.last().origin(), msgs.last().kind());
        (s2, actions.push(a))
    }
}

/// One tick: the controls, then every fault drained this tick.
pub open spec fn tick_spec(state: State, c: Controls, msgs: Seq<Message>) -> (State, Seq<Action>) {
    let (s1, first) = controls_transition(state, c);
    let (s2, rest) = message_run(s1, msgs);
    (s2, seq![first] + rest)
}

/// How many times the shutdown procedure is asked for.
pub open spec fn stop_count(actions: Seq<Action>) -> nat
    decreases actions.len(),
{
    if actions.len() == 0 {
        0
    } else {
        stop_count(actions.drop_last()) + if actions.last() == Action::Stop {
            1nat
        } else {
            0nat
        }
    }
}

/// No fault of `msgs` is the shutdown procedure's success.
pub open spec fn no_shutdown_success(msgs: Seq<Message>) -> bool {
    forall|k: int|
        0 <= k < msgs.len() ==> !(#[trigger] msgs[k].origin() == Name::System && msgs[k].kind()
            == Exception::InfoShutdownSuccess)
}

pub open spec fn all_non_critical(msgs: Seq<Message>) -> bool {
    forall|k: int| 0 <= k < msgs.len() ==> !(#[trigger] msgs[k].kind()).is_critical_kind()
}

pub open spec fn some_critical(msgs: Seq<Message>) -> bool {
    exists|k: int| 0 <= k < msgs.len() && (#[trigger] msgs[k].kind()).is_critical_kind()
}

pub struct Boat {
    pub state: State,
    pub telemetry_data: TelemetryData,
    pub interface_data: InterfaceData,
    pub startup_data: StartupData,
}

pub open spec fn option_map_field<T>(v: Option<T>, f: spec_fn(T) -> i64) -> Option<i64> {
    match v {
        Some(x) => Some(f(x)),
        None => None,
    }
}

impl Boat {
    /// The boat after merging one reading into its snapshots.
    pub open spec fn merged(self, data: SensorData) -> Boat {
        match data {
            SensorData::Gps(values) => Boat {
                telemetry_data: TelemetryData { gps: values, ..self.telemetry_data },
                interface_data: InterfaceData {
                    speed: match values {
                        Some(g) => match g.speed_knots {
                            Some(s) => knots_to_kmh(s),
                            None => None,
                        },
                        None => None,
                    },
                    ..self.interface_data
                },
                ..self
            },
            SensorData::Temperature(name, value) => Boat {
                telemetry_data: TelemetryData {
                    temperature: self.telemetry_data.temperature.set_spec(name, value),
                    ..self.telemetry_data
                },
                interface_data: match name {
                    TemperatureSensorName::H2Plate => InterfaceData { h2_plate_temperature: value, ..self.interface_data },
                    TemperatureSensorName::Batteries => InterfaceData { battery_temperature: value, ..self.interface_data },
                    TemperatureSensorName::FuelCellControllers => InterfaceData {
                        fuel_cell_controllers_temperature: value,
                        ..self.interface_data
                    },
                    TemperatureSensorName::H2Tanks => InterfaceData { h2_tanks_temperature: value, ..self.interface_data },
                    TemperatureSensorName::Extra => self.interface_data,
                },
                startup_data: if name == TemperatureSensorName::H2Plate {
                    StartupData { h2_plate_temperature: value, ..self.startup_data }
                } else {
                    self.startup_data
                },
                ..self
            },
            SensorData::FuelCellA(values) => Boat {
                telemetry_data: TelemetryData { fuel_cell_a: values, ..self.telemetry_data },
                interface_data: InterfaceData {
                    fuel_cell_a_temperature: match values {
                        Some(d) => d.temperature,
                        None => None,
                    },
                    ..self.interface_data
                },
                ..self
            },
            SensorData::FuelCellB(values) => Boat {
                telemetry_data: TelemetryData { fuel_cell_b: values, ..self.telemetry_data },
                interface_data: InterfaceData {
                    fuel_cell_b_temperature: match values {
                        Some(d) => d.temperature,
                        None => None,
                    },
                    ..self.interface_data
                },
                ..self
            },
            SensorData::Batteries(values) => Boat {
                telemetry_data: TelemetryData { battery: values, ..self.telemetry_data },
                interface_data: InterfaceData {
                    battery_capacity: option_map_field(values, |b: crate::sensor_data::BatteryGaugeData| b.charge_level),
                    battery_voltage: option_map_field(values, |b: crate::sensor_data::BatteryGaugeData| b.voltage),
                    battery_current: option_map_field(values, |b: crate::sensor_data::BatteryGaugeData| b.current),
                    ..self.interface_data
                },
                ..self
            },
            SensorData::HighPressureManometer(value) => Boat {
                interface_data: InterfaceData { high_pressure: value, ..self.interface_data },
                startup_data: StartupData { high_pressure: value, ..self.startup_data },
                ..self
            },
            SensorData::LowPressureManometer(value) => Boat {
                interface_data: InterfaceData { low_pressure: value, ..self.interface_data },
                startup_data: StartupData { low_pressure: value, ..self.startup_data },
                ..self
            },
        }
    }

    pub fn new() -> (r: Boat)
        ensures
            r.state == State::Idle,
            r.interface_data == InterfaceData::empty(),
            r.telemetry_data.battery is None,
            r.telemetry_data.fuel_cell_a is None,
            r.telemetry_data.fuel_cell_b is None,
            r.telemetry_data.gps is None,
            r.telemetry_data.temperature == crate::telemetry::TemperatureData::new_spec(),
            r.startup_data == (StartupData { h2_plate_temperature: None, high_pressure: None, low_pressure: None }),
    {
        Boat {
            state: State::Idle,
            telemetry_data: TelemetryData::new(),
            interface_data: InterfaceData::new(),
            startup_data: StartupData::new(),
        }
    }

    /// Reacts to the buttons and dead-man switch read at the start of a tick.
    pub fn on_controls(&mut self, c: Controls) -> (r: Action)
        ensures
            (final(self).state, r) == controls_transition(old(self).state, c),
            final(self).telemetry_data == old(self).telemetry_data,
            final(self).interface_data == old(self).interface_data,
            final(self).startup_data == old(self).startup_data,
    {
        match self.state {
            State::Idle => {
                if c.start_pressed {
                    self.state = State::Starting;
                    Action::Start
                } else if c.stop_pressed {
                    Action::Quit
                } else {
                    Action::Nothing
                }
            },
            State::Running => {
                if c.dms_released || c.stop_pressed {
                    self.state = State::Stopping;
                    Action::Stop
                } else {
                    Action::Nothing
                }
            },
            _ => Action::Nothing,
        }
    }

    /// Reacts to one fault, in arrival order.
    pub fn on_message(&mut self, message: &Message) -> (r: Action)
        ensures
            (final(self).state, r) == message_transition(old(self).state, message.origin(), message.kind()),
            final(self).telemetry_data == old(self).telemetry_data,
            final(self).interface_data == old(self).interface_data,
            final(self).startup_data == old(self).startup_data,
    {
        let running = match self.state {
            State::Running => true,
            _ => false,
        };
        if running && message.is_critical() {
            self.state = State::Stopping;
            return Action::Stop;
        }
        match message.get_name() {
            Name::System => {},
            _ => return Action::Nothing,
        }
        match message.get_exception() {
            Exception::InfoStartupSuccess => {
                if self.state == State::Starting {
                    self.state = State::Running;
                }
                Action::Nothing
            },
            Exception::InfoStartupFailed => {
                if self.state == State::Starting {
                    self.state = State::Stopping;
                    Action::Stop
                } else {
                    Action::Nothing
                }
            },
            Exception::InfoShutdownSuccess => {
                if self.state == State::Stopping {
                    self.state = State::Idle;
                }
                Action::Nothing
            },
            Exception::InfoShutdownFailed => Action::Halt,
            _ => Action::Nothing,
        }
    }

    /// One tick of the supervisor: reacts to the controls, then to the
    /// faults drained this tick, in arrival order. The actions are to be
    /// carried out in order.
    pub fn tick(&mut self, c: Controls, messages: &[Message]) -> (r: Vec<Action>)
        ensures
            (final(self).state, r@) == tick_spec(old(self).state, c, messages@),
            final(self).telemetry_data == old(self).telemetry_data,
            final(self).interface_data == old(self).interface_data,
            final(self).startup_data == old(self).startup_data,
    {
        let first = self.on_controls(c);
        let ghost s1 = self.state;
        let mut actions: Vec<Action> = vec![first];
        let mut i: usize = 0;
        assert(messages@.subrange(0, 0) =~= Seq::<Message>::empty());
        assert(actions@ =~= seq![first] + Seq::<Action>::empty());
        while i < messages.len()
            invariant
                i <= messages@.len(),
                (self.state, actions@) == ({
                    let (s, rest) = message_run(s1, messages@.subrange(0, i as int));
                    (s, seq![first] + rest)
                }),
                self.telemetry_data == old(self).telemetry_data,
                self.interface_data == old(self).interface_data,
                self.startup_data == old(self).startup_data,
            decreases messages@.len() - i,
        {
            let ghost prev = message_run(s1, messages@.subrange(0, i as int));
            let a = self.on_message(&messages[i]);
            actions.push(a);
            proof {
                let next = messages@.subrange(0, i + 1);
                assert(next.drop_last() =~= messages@.subrange(0, i as int));
                assert(next.last() == messages@[i as int]);
                assert(seq![first] + prev.1.push(a) =~= (seq![first] + prev.1).push(a));
            }
            i = i + 1;
        }
        assert(messages@.subrange(0, messages@.len() as int) =~= messages@);
        actions
    }

    /// Merges one reading into the snapshots.
    pub fn update_data(&mut self, data: SensorData)
        ensures
            *final(self) == old(self).merged(data),
    {
        match data {
            SensorData::Gps(values) => {
                self.telemetry_data.gps = values;
                self.interface_data.speed = match values {
                    Some(g) => match g.speed_knots {
                        Some(s) => knots_to_kmh_exec(s),
                        None => None,
                    },
                    None => None,
                };
            },
            SensorData::Temperature(name, value) => {
                self.telemetry_data.temperature.insert(name, value);
                proof {
                    self.telemetry_data.temperature.lemma_set_spec(old(self).telemetry_data.temperature, name, value);
                }
                match name {
                    TemperatureSensorName::H2Plate => {
                        self.interface_data.h2_plate_temperature = value;
                        self.startup_data.h2_plate_temperature = value;
                    },
                    TemperatureSensorName::Batteries => self.interface_data.battery_temperature = value,
                    TemperatureSensorName::FuelCellControllers => {
                        self.interface_data.fuel_cell_controllers_temperature = value
                    },
                    TemperatureSensorName::H2Tanks => self.interface_data.h2_tanks_temperature = value,
                    TemperatureSensorName::Extra => {},
                }
            },
            SensorData::FuelCellA(values) => {
                self.telemetry_data.fuel_cell_a = values;
                self.interface_data.fuel_cell_a_temperature = match values {
                    Some(d) => d.temperature,
                    None => None,
                };
            },
            SensorData::FuelCellB(values) => {
                self.telemetry_data.fuel_cell_b = values;
                self.interface_data.fuel_cell_b_temperature = match values {
                    Some(d) => d.temperature,
                    None => None,
                };
            },
            SensorData::Batteries(values) => {
                self.telemetry_data.battery = values;
                match values {
                    Some(b) => {
                        self.interface_data.battery_capacity = Some(b.charge_level);
                        self.interface_data.battery_voltage = Some(b.voltage);
                        self.interface_data.battery_current = Some(b.current);
                    },
                    None => {
                        self.interface_data.battery_capacity = None;
                        self.interface_data.battery_voltage = None;
                        self.interface_data.battery_current = None;
                    },
                }
            },
            SensorData::HighPressureManometer(value) => {
                self.interface_data.high_pressure = value;
                self.startup_data.high_pressure = value;
            },
            SensorData::LowPressureManometer(value) => {
                self.interface_data.low_pressure = value;
                self.startup_data.low_pressure = value;
            },
        }
    }
}

/// Speed in thousandths of a kilometre per hour for a speed in thousandths of a knot,
/// when it fits.
pub open spec fn knots_to_kmh(milli_knots: i64) -> Option<i64> {
    let product = milli_knots * KMH_PER_KNOT;
    let v = if product >= 0 {
        product / 1000
    } else {
        -((-product) / 1000)
    };
    if i64::MIN <= v <= i64::MAX {
        Some(v as i64)
    } else {
        None
    }
}

pub fn knots_to_kmh_exec(milli_knots: i64) -> (r: Option<i64>)
    ensures
        r == knots_to_kmh(milli_knots),
{
    let product: i128 = milli_knots as i128 * KMH_PER_KNOT as i128;
    let v: i128 = if product >= 0 {
        product / 1000
    } else {
        -((-product) / 1000)
    };
    if v >= i64::MIN as i128 && v <= i64::MAX as i128 {
        Some(v as i64)
    } else {
        None
    }
}

/// From Running, a critical fault always moves the boat to Stopping and runs
/// the shutdown procedure; any other fault leaves the state as it is.
pub proof fn lemma_running_reacts_to_critical(name: Name, kind: Exception)
    ensures
        kind.is_critical_kind() ==> message_transition(State::Running, name, kind) == (State::Stopping, Action::Stop),
        !kind.is_critical_kind() ==> message_transition(State::Running, name, kind).0 == State::Running,
{
}

proof fn lemma_stop_count_push(actions: Seq<Action>, a: Action)
    ensures
        stop_count(actions.push(a)) == stop_count(actions) + if a == Action::Stop {
            1nat
        } else {
            0nat
        },
{
    assert(actions.push(a).drop_last() =~= actions);
}

proof fn lemma_stop_count_prepend(a: Action, rest: Seq<Action>)
    ensures
        stop_count(seq![a] + rest) == stop_count(rest) + if a == Action::Stop {
            1nat
        } else {
            0nat
        },
    decreases rest.len(),
{
    if rest.len() > 0 {
        lemma_stop_count_prepend(a, rest.drop_last());
        assert(seq![a] + rest =~= (seq![a] + rest.drop_last()).push(rest.last()));
        assert(rest =~= rest.drop_last().push(rest.last()));
        lemma_stop_count_push(seq![a] + rest.drop_last(), rest.last());
        lemma_stop_count_push(rest.drop_last(), rest.last());
    } else {
        assert(seq![a] + rest =~= Seq::<Action>::empty().push(a));
        lemma_stop_count_push(Seq::<Action>::empty(), a);
    }
}

/// While stopping, faults never ask for the shutdown procedure again, and
/// only its success leaves Stopping.
pub proof fn lemma_stopping_is_stable(msgs: Seq<Message>)
    requires
        no_shutdown_success(msgs),
    ensures
        message_run(State::Stopping, msgs).0 == State::Stopping,
        stop_count(message_run(State::Stopping, msgs).1) == 0,
    decreases msgs.len(),
{
    if msgs.len() > 0 {
        assert(no_shutdown_success(msgs.drop_last())) by {
            assert forall|k: int| 0 <= k < msgs.drop_last().len() implies !(#[trigger] msgs.drop_last()[k].origin()
                == Name::System && msgs.drop_last()[k].kind() == Exception::InfoShutdownSuccess) by {
                assert(msgs.drop_last()[k] == msgs[k]);
            }
        }
        lemma_stopping_is_stable(msgs.drop_last());
        assert(msgs.last() == msgs[msgs.len() - 1]);
        let (s1, actions) = message_run(State::Stopping, msgs.drop_last());
        lemma_stop_count_push(actions, message_transition(s1, msgs.last().origin(), msgs.last().kind()).1);
    }
}

/// From Running, non-critical faults leave the state as it is and never ask
/// for the shutdown procedure.
pub proof fn lemma_running_ignores_non_critical(msgs: Seq<Message>)
    requires
        all_non_critical(msgs),
    ensures
        message_run(State::Running, msgs).0 == State::Running,
        stop_count(message_run(State::Running, msgs).1) == 0,
    decreases msgs.len(),
{
    if msgs.len() > 0 {
        assert(all_non_critical(msgs.drop_last())) by {
            assert forall|k: int| 0 <= k < msgs.drop_last().len() implies !(#[trigger] msgs.drop_last()[k].kind()).is_critical_kind() by {
                assert(msgs.drop_last()[k] == msgs[k]);
            }
        }
        lemma_running_ignores_non_critical(msgs.drop_last());
        assert(msgs.last() == msgs[msgs.len() - 1]);
        let (s1, actions) = message_run(State::Running, msgs.drop_last());
        lemma_stop_count_push(actions, message_transition(s1, msgs.last().origin(), msgs.last().kind()).1);
    }
}

/// From Running, faults of which at least one is critical move the boat to
/// Stopping and ask for the shutdown procedure exactly once, unless the
/// shutdown's own success arrives among them.
pub proof fn lemma_running_stops_once(msgs: Seq<Message>)
    requires
        some_critical(msgs),
        no_shutdown_success(msgs),
    ensures
        message_run(State::Running, msgs).0 == State::Stopping,
        stop_count(message_run(State::Running, msgs).1) == 1,
    decreases msgs.len(),
{
    let prefix = msgs.drop_last();
    assert(msgs.last() == msgs[msgs.len() - 1]);
    let (s1, actions) = message_run(State::Running, prefix);
    lemma_stop_count_push(actions, message_transition(s1, msgs.last().origin(), msgs.last().kind()).1);
    assert(no_shutdown_success(prefix)) by {
        assert forall|k: int| 0 <= k < prefix.len() implies !(#[trigger] prefix[k].origin() == Name::System
            && prefix[k].kind() == Exception::InfoShutdownSuccess) by {
            assert(prefix[k] == msgs[k]);
        }
    }
    if some_critical(prefix) {
        lemma_running_stops_once(prefix);
    } else {
        assert(all_non_critical(prefix)) by {
            assert forall|k: int| 0 <= k < prefix.len() implies !(#[trigger] prefix[k].kind()).is_critical_kind() by {
                if prefix[k].kind().is_critical_kind() {
                    assert(some_critical(prefix));
                }
            }
        }
        lemma_running_ignores_non_critical(prefix);
        let k = choose|k: int| 0 <= k < msgs.len() && (#[trigger] msgs[k].kind()).is_critical_kind();
        if k < msgs.len() - 1 {
            assert(prefix[k] == msgs[k]);
        }
    }
}

/// A tick from Running with the dead-man switch engaged and the stop button
/// not pressed: a critical fault among the tick's faults yields Stopping and
/// exactly one shutdown; only non-critical faults keep the boat running and
/// ask for no shutdown.
pub proof fn lemma_tick_reacts_to_faults(c: Controls, msgs: Seq<Message>)
    requires
        !c.dms_released,
        !c.stop_pressed,
    ensures
        some_critical(msgs) && no_shutdown_success(msgs) ==> tick_spec(State::Running, c, msgs).0 == State::Stopping
            && stop_count(tick_spec(State::Running, c, msgs).1) == 1,
        all_non_critical(msgs) ==> tick_spec(State::Running, c, msgs).0 == State::Running && stop_count(
            tick_spec(State::Running, c, msgs).1,
        ) == 0,
{
    lemma_stop_count_prepend(Action::Nothing, message_run(State::Running, msgs).1);
    if some_critical(msgs) && no_shutdown_success(msgs) {
        lemma_running_stops_once(msgs);
    }
    if all_non_critical(msgs) {
        lemma_running_ignores_non_critical(msgs);
    }
}

/// A tick from Running in which the stop button is pressed or the dead-man
/// switch released yields Stopping and exactly one shutdown, whatever faults
/// follow in the tick, unless the shutdown's own success is among them.
pub proof fn lemma_tick_stop_control(c: Controls, msgs: Seq<Message>)
    requires
        c.stop_pressed || c.dms_released,
        no_shutdown_success(msgs),
    ensures
        tick_spec(State::Running, c, msgs).0 == State::Stopping,
        stop_count(tick_spec(State::Running, c, msgs).1) == 1,
{
    lemma_stopping_is_stable(msgs);
    lemma_stop_count_prepend(Action::Stop, message_run(State::Stopping, msgs).1);
}

/// The operator's lifecycle: releasing the dead-man switch while idle does
/// nothing; start while idle leads to Starting, then Running once startup
/// succeeds; stop while running leads to Stopping, then Idle once shutdown
/// succeeds.
pub proof fn lemma_operator_lifecycle(c: Controls)
    ensures
        !c.start_pressed && !c.stop_pressed ==> controls_transition(State::Idle, c) == (State::Idle, Action::Nothing),
        c.start_pressed ==> controls_transition(State::Idle, c) == (State::Starting, Action::Start),
        message_transition(State::Starting, Name::System, Exception::InfoStartupSuccess).0 == State::Running,
        c.stop_pressed ==> controls_transition(State::Running, c) == (State::Stopping, Action::Stop),
        message_transition(State::Stopping, Name::System, Exception::InfoShutdownSuccess).0 == State::Idle,
{
}

} // verus!
