use generator_manager::config::{Config, GeneratorConfig, MqttCredentials, MqttTopics};
use generator_manager::generator::record_current_limit;
use generator_manager::mqtt::{check_current_limit, refresh_topics, set_ac_limit, setup, QoS};
use generator_manager::state::{GeneratorStatus, State};

fn config() -> Config {
    Config {
        shore_limit: 15_000,
        mqtt: MqttCredentials {
            host: "192.168.50.5".to_string(),
            port: 1883,
            user: "public".to_string(),
            password: "secret".to_string(),
        },
        topics: MqttTopics {
            current_limit: "id/vebus/257/Ac/ActiveIn/CurrentLimit".to_string(),
            shore_connected: "id/vebus/257/Ac/ActiveIn/Connected".to_string(),
            soc: "id/battery/512/Soc".to_string(),
        },
        generator: GeneratorConfig {
            limit: 45_500,
            auto_start_soc: 30_000,
            stop_charge_soc: 80_000,
            low_voltage: 12_100,
            low_voltage_charge_minutes: 60,
        },
        do_not_run_generator: false,
    }
}

#[test]
fn setup_subscribes_to_notifications() {
    let c = config();
    let s = setup(&c);
    assert_eq!(s.client_id, "public");
    assert_eq!(s.host, "192.168.50.5");
    assert_eq!(s.port, 1883);
    assert_eq!(s.user, "public");
    assert_eq!(s.password, "secret");
    assert_eq!(s.keep_alive_secs, 5);
    assert_eq!(s.capacity, 10);
    let topics: Vec<&str> = s.subscriptions.iter().map(|t| t.topic.as_str()).collect();
    assert_eq!(
        topics,
        vec![
            "N/id/battery/512/Soc",
            "N/id/vebus/257/Ac/ActiveIn/CurrentLimit",
            "N/id/vebus/257/Ac/ActiveIn/Connected",
        ]
    );
    assert!(s.subscriptions.iter().all(|t| t.qos == QoS::AtLeastOnce));
}

#[test]
fn set_ac_limit_writes_value_with_one_decimal() {
    let s = State::new(config());
    let p = set_ac_limit(&s, "45.5");
    assert_eq!(p.topic, "W/id/vebus/257/Ac/ActiveIn/CurrentLimit");
    assert_eq!(p.payload, "{\"value\": 45.5}");
    assert_eq!(p.qos, QoS::AtLeastOnce);
    assert!(!p.retain);
    let q = set_ac_limit(&s, "15.0");
    assert_eq!(q.payload, "{\"value\": 15.0}");
}

#[test]
fn refresh_topics_reads_three_topics() {
    let s = State::new(config());
    let ps = refresh_topics(&s);
    assert_eq!(ps.len(), 3);
    assert_eq!(ps[0].topic, "R/id/vebus/257/Ac/ActiveIn/CurrentLimit");
    assert_eq!(ps[1].topic, "R/id/battery/512/Soc");
    assert_eq!(ps[2].topic, "R/id/vebus/257/Ac/ActiveIn/Connected");
    for p in &ps {
        assert_eq!(p.payload, "please");
        assert_eq!(p.qos, QoS::AtLeastOnce);
        assert!(!p.retain);
    }
}

#[test]
fn check_current_limit_raises_limit_for_running_generator() {
    let mut s = State::new(config());
    s.set_ac_limit(15_000);
    assert_eq!(check_current_limit(&s, Some(GeneratorStatus::Running)), Some(45_500));
}

#[test]
fn check_current_limit_lowers_limit_for_stopped_generator() {
    let mut s = State::new(config());
    s.set_ac_limit(45_500);
    assert_eq!(check_current_limit(&s, Some(GeneratorStatus::Off)), Some(15_000));
}

#[test]
fn check_current_limit_leaves_matching_limit() {
    let mut s = State::new(config());
    s.set_ac_limit(45_500);
    assert!(check_current_limit(&s, Some(GeneratorStatus::Running)).is_none());
    s.set_ac_limit(15_000);
    assert!(check_current_limit(&s, Some(GeneratorStatus::Off)).is_none());
}

#[test]
fn check_current_limit_waits_while_starting_or_unknown() {
    let s = State::new(config());
    assert!(check_current_limit(&s, Some(GeneratorStatus::Priming)).is_none());
    assert!(check_current_limit(&s, Some(GeneratorStatus::Starting)).is_none());
    assert!(check_current_limit(&s, None).is_none());
}

#[test]
fn reported_limit_settles() {
    let mut s = State::new(config());
    let running = Some(GeneratorStatus::Running);
    assert!(check_current_limit(&s, running).is_some());
    // The inverter reports back the limit that was asked for.
    record_current_limit(&mut s, 45_500);
    assert!(check_current_limit(&s, running).is_none());
    record_current_limit(&mut s, 15_000);
    assert!(check_current_limit(&s, Some(GeneratorStatus::Off)).is_none());
}

#[test]
fn limit_off_the_half_amp_grid_is_asked_again() {
    let mut c = config();
    c.shore_limit = 15_300;
    let mut s = State::new(c);
    record_current_limit(&mut s, 15_300);
    assert_eq!(s.ac_input, 15_500);
    assert_eq!(check_current_limit(&s, Some(GeneratorStatus::Off)), Some(15_300));
}
