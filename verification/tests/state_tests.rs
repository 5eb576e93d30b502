use generator_manager::config::{Config, GeneratorConfig, MqttCredentials, MqttTopics};
use generator_manager::state::{DesiredGeneratorState, GeneratorStatus, State};

fn config() -> Config {
    Config {
        shore_limit: 15_000,
        mqtt: MqttCredentials {
            host: "192.168.50.5".to_string(),
            port: 1883,
            user: "public".to_string(),
            password: "public".to_string(),
        },
        topics: MqttTopics {
            current_limit: "id/vebus/257/Ac/ActiveIn/CurrentLimit".to_string(),
            shore_connected: "id/vebus/257/Ac/ActiveIn/Connected".to_string(),
            soc: "id/battery/512/Soc".to_string(),
        },
        generator: GeneratorConfig {
            limit: 45_500,
            auto_start_soc: 30_000,
            stop_charge_soc: 80_000,
            low_voltage: 12_100,
            low_voltage_charge_minutes: 60,
        },
        do_not_run_generator: false,
    }
}

const NOW: i64 = 1_700_000_000_000;
const OFF: Option<GeneratorStatus> = Some(GeneratorStatus::Off);
const RUNNING: Option<GeneratorStatus> = Some(GeneratorStatus::Running);

#[test]
fn new_state_is_empty() {
    let s = State::new(config());
    assert_eq!(s.ac_input, 0);
    assert_eq!(s.last_soc, None);
    assert_eq!(s.last_voltage, None);
    assert_eq!(s.last_batt_wattage, None);
    assert!(!s.we_turned_it_on);
    assert!(!s.shore_available);
    assert_eq!(s.timer, None);
}

#[test]
fn setters_record_readings() {
    let mut s = State::new(config());
    s.set_ac_limit(16_000);
    s.set_last_soc(55_300);
    s.set_last_voltage(12_800);
    s.set_last_batt_wattage(-250_000);
    s.set_shore_availability(true);
    s.turned_on();
    assert_eq!(s.ac_input, 16_000);
    assert_eq!(s.last_soc, Some(55_300));
    assert_eq!(s.last_voltage, Some(12_800));
    assert_eq!(s.last_batt_wattage, Some(-250_000));
    assert!(s.shore_available);
    assert!(s.we_turned_it_on);
    s.turned_off();
    assert!(!s.we_turned_it_on);
}

#[test]
fn set_timer_ends_minutes_later() {
    let mut s = State::new(config());
    s.set_timer(NOW, 90);
    assert_eq!(s.timer, Some(NOW + 90 * 60_000));
    s.set_timer(NOW, -5);
    assert_eq!(s.timer, Some(NOW - 5 * 60_000));
}

#[test]
fn nothing_known_means_nothing_to_do() {
    let mut s = State::new(config());
    assert_eq!(s.wanted(NOW, OFF), DesiredGeneratorState::InDesiredState);
    assert_eq!(s.wanted(NOW, None), DesiredGeneratorState::InDesiredState);
}

#[test]
fn low_battery_starts_generator() {
    let mut s = State::new(config());
    s.set_last_soc(30_000);
    assert_eq!(s.wanted(NOW, OFF), DesiredGeneratorState::On);
    s.set_last_soc(29_900);
    assert_eq!(s.wanted(NOW, None), DesiredGeneratorState::On);
}

#[test]
fn low_battery_does_not_start_running_generator() {
    let mut s = State::new(config());
    s.set_last_soc(20_000);
    assert_eq!(s.wanted(NOW, RUNNING), DesiredGeneratorState::InDesiredState);
}

#[test]
fn low_battery_not_started_when_charging_already() {
    let mut s = State::new(config());
    s.set_last_soc(20_000);
    s.set_last_batt_wattage(1);
    assert_eq!(s.wanted(NOW, OFF), DesiredGeneratorState::InDesiredState);
    s.set_last_batt_wattage(0);
    assert_eq!(s.wanted(NOW, OFF), DesiredGeneratorState::On);
}

#[test]
fn low_battery_not_started_when_forbidden() {
    let mut s = State::new(config());
    s.config.set_do_not_run_generator(true);
    s.set_last_soc(20_000);
    assert_eq!(s.wanted(NOW, OFF), DesiredGeneratorState::InDesiredState);
}

#[test]
fn shore_power_blocks_start_unless_generator_stronger() {
    let mut s = State::new(config());
    s.set_last_soc(20_000);
    s.set_shore_availability(true);
    assert_eq!(s.wanted(NOW, OFF), DesiredGeneratorState::On);
    s.config.shore_limit = 50_000;
    assert_eq!(s.wanted(NOW, OFF), DesiredGeneratorState::InDesiredState);
    s.config.shore_limit = 45_500;
    assert_eq!(s.wanted(NOW, OFF), DesiredGeneratorState::InDesiredState);
    s.set_shore_availability(false);
    assert_eq!(s.wanted(NOW, OFF), DesiredGeneratorState::On);
}

#[test]
fn charged_battery_stops_our_generator() {
    let mut s = State::new(config());
    s.turned_on();
    s.set_last_soc(80_000);
    assert_eq!(s.wanted(NOW, RUNNING), DesiredGeneratorState::Off);
}

#[test]
fn charged_battery_leaves_foreign_generator_running() {
    let mut s = State::new(config());
    s.set_last_soc(95_000);
    assert_eq!(s.wanted(NOW, RUNNING), DesiredGeneratorState::InDesiredState);
}

#[test]
fn between_levels_keeps_generator_as_is() {
    let mut s = State::new(config());
    s.turned_on();
    s.set_last_soc(50_000);
    assert_eq!(s.wanted(NOW, RUNNING), DesiredGeneratorState::InDesiredState);
    assert!(s.we_turned_it_on);
    let mut t = State::new(config());
    t.set_last_soc(50_000);
    assert_eq!(t.wanted(NOW, OFF), DesiredGeneratorState::InDesiredState);
}

#[test]
fn forbidding_stops_our_running_generator() {
    let mut s = State::new(config());
    s.turned_on();
    s.set_last_soc(50_000);
    s.config.set_do_not_run_generator(true);
    assert_eq!(s.wanted(NOW, RUNNING), DesiredGeneratorState::Off);
}

#[test]
fn manually_stopped_generator_is_no_longer_ours() {
    let mut s = State::new(config());
    s.turned_on();
    s.set_last_soc(90_000);
    assert_eq!(s.wanted(NOW, OFF), DesiredGeneratorState::InDesiredState);
    assert!(!s.we_turned_it_on);
    // Started again by hand, it is not stopped by the manager.
    assert_eq!(s.wanted(NOW, RUNNING), DesiredGeneratorState::InDesiredState);
}

#[test]
fn unreadable_generator_is_not_ours() {
    let mut s = State::new(config());
    s.turned_on();
    s.set_last_soc(20_000);
    assert_eq!(s.wanted(NOW, None), DesiredGeneratorState::On);
    assert!(!s.we_turned_it_on);
}

#[test]
fn low_voltage_starts_timer_and_generator() {
    let mut s = State::new(config());
    s.set_last_soc(60_000);
    s.set_last_voltage(12_100);
    assert_eq!(s.wanted(NOW, OFF), DesiredGeneratorState::On);
    assert_eq!(s.timer, Some(NOW + 60 * 60_000));
}

#[test]
fn low_voltage_timer_keeps_our_generator_running() {
    let mut s = State::new(config());
    s.turned_on();
    s.set_last_soc(85_000);
    s.set_last_voltage(11_900);
    assert_eq!(s.wanted(NOW, RUNNING), DesiredGeneratorState::InDesiredState);
    assert!(s.timer.is_some());
}

#[test]
fn timer_keeps_generator_wanted_until_it_ends() {
    let mut s = State::new(config());
    s.set_last_soc(60_000);
    s.set_timer(NOW, 10);
    assert_eq!(s.wanted(NOW + 9 * 60_000, OFF), DesiredGeneratorState::On);
    assert_eq!(s.timer, Some(NOW + 10 * 60_000));
    assert_eq!(s.wanted(NOW + 10 * 60_000, OFF), DesiredGeneratorState::InDesiredState);
    assert_eq!(s.timer, None);
}

#[test]
fn expired_timer_lets_charged_battery_stop_generator() {
    let mut s = State::new(config());
    s.turned_on();
    s.set_last_soc(85_000);
    s.set_timer(NOW, 1);
    assert_eq!(s.wanted(NOW, RUNNING), DesiredGeneratorState::InDesiredState);
    assert_eq!(s.wanted(NOW + 60_000, RUNNING), DesiredGeneratorState::Off);
    assert_eq!(s.timer, None);
}

#[test]
fn deciding_twice_changes_nothing_more() {
    let mut s = State::new(config());
    s.turned_on();
    s.set_last_soc(40_000);
    s.set_last_voltage(11_000);
    s.set_timer(NOW - 1, 0);
    let first = s.wanted(NOW, OFF);
    let timer = s.timer;
    let ours = s.we_turned_it_on;
    let second = s.wanted(NOW, OFF);
    assert_eq!(first, second);
    assert_eq!(s.timer, timer);
    assert_eq!(s.we_turned_it_on, ours);
}

#[test]
fn timer_time_left() {
    let mut s = State::new(config());
    assert_eq!(s.timer_seconds_left(NOW), None);
    assert_eq!(s.timer_minutes_left(NOW), None);
    s.set_timer(NOW, 3);
    assert_eq!(s.timer_seconds_left(NOW), Some(180));
    assert_eq!(s.timer_minutes_left(NOW), Some(3));
    assert_eq!(s.timer_seconds_left(NOW + 1_500), Some(178));
    assert_eq!(s.timer_minutes_left(NOW + 1_500), Some(2));
    assert_eq!(s.timer_seconds_left(NOW + 180_999), Some(0));
    assert_eq!(s.timer_seconds_left(NOW + 182_500), Some(-2));
    assert_eq!(s.timer_minutes_left(NOW + 300_000), Some(-2));
}
