use generator_manager::notification::{
    classify_topic, handle_notification, last_topic_segment, NotificationError, TopicKind,
};

#[test]
fn last_segment_of_topics() {
    assert_eq!(last_topic_segment("N/id/battery/512/Soc"), "Soc");
    assert_eq!(last_topic_segment("Soc"), "Soc");
    assert_eq!(last_topic_segment("a/b/"), "");
    assert_eq!(last_topic_segment(""), "");
    assert_eq!(last_topic_segment("ä/ö/ü"), "ü");
}

#[test]
fn classify_known_topics() {
    assert_eq!(classify_topic("N/id/battery/512/Soc"), TopicKind::Soc);
    assert_eq!(classify_topic("N/id/vebus/257/Ac/ActiveIn/CurrentLimit"), TopicKind::CurrentLimit);
    assert_eq!(classify_topic("N/id/vebus/257/Ac/ActiveIn/Connected"), TopicKind::Connected);
}

#[test]
fn classify_ignores_case() {
    assert_eq!(classify_topic("x/SOC"), TopicKind::Soc);
    assert_eq!(classify_topic("x/currentlimit"), TopicKind::CurrentLimit);
    assert_eq!(classify_topic("CONNECTED"), TopicKind::Connected);
}

#[test]
fn classify_other_topics() {
    assert_eq!(classify_topic("N/id/battery/512/Voltage"), TopicKind::Other);
    assert_eq!(classify_topic("Soc/x"), TopicKind::Other);
    assert_eq!(classify_topic("x/Soc "), TopicKind::Other);
    assert_eq!(classify_topic(""), TopicKind::Other);
}

#[test]
fn handle_notification_reads_value() {
    let r = handle_notification("N/id/battery/512/Soc", b"{\"value\": 85.3}");
    match r {
        Ok(reading) => {
            assert_eq!(reading.kind, TopicKind::Soc);
            assert_eq!(reading.value, "85.3");
        }
        Err(_) => panic!("expected a reading"),
    }
}

#[test]
fn handle_notification_missing_value_is_null() {
    match handle_notification("x/Connected", b"{\"other\": 1}") {
        Ok(reading) => {
            assert_eq!(reading.kind, TopicKind::Connected);
            assert_eq!(reading.value, "null");
        }
        Err(_) => panic!("expected a reading"),
    }
}

#[test]
fn handle_notification_rejects_invalid_json() {
    match handle_notification("x/Soc", b"not json") {
        Ok(_) => panic!("expected an error"),
        Err(NotificationError::Json(e)) => assert!(!e.to_string().is_empty()),
    }
}

use generator_manager::config::{Config, GeneratorConfig, MqttCredentials, MqttTopics};
use generator_manager::notification::{apply_reading, kind_of_name};
use generator_manager::state::State;

fn state() -> State {
    State::new(Config {
        shore_limit: 15_000,
        mqtt: MqttCredentials {
            host: "h".to_string(),
            port: 1883,
            user: "u".to_string(),
            password: "p".to_string(),
        },
        topics: MqttTopics {
            current_limit: "v/CurrentLimit".to_string(),
            shore_connected: "v/Connected".to_string(),
            soc: "b/Soc".to_string(),
        },
        generator: GeneratorConfig {
            limit: 45_500,
            auto_start_soc: 30_000,
            stop_charge_soc: 80_000,
            low_voltage: 12_100,
            low_voltage_charge_minutes: 60,
        },
        do_not_run_generator: false,
    })
}

#[test]
fn kind_of_lower_cased_names() {
    assert_eq!(kind_of_name("soc"), TopicKind::Soc);
    assert_eq!(kind_of_name("currentlimit"), TopicKind::CurrentLimit);
    assert_eq!(kind_of_name("connected"), TopicKind::Connected);
    assert_eq!(kind_of_name("Soc"), TopicKind::Other);
    assert_eq!(kind_of_name(""), TopicKind::Other);
}

#[test]
fn current_limit_reading_is_recorded_rounded() {
    let mut s = state();
    let e = apply_reading(&mut s, TopicKind::CurrentLimit, Some(16_200));
    assert_eq!(s.ac_input, 16_500);
    assert!(!e.decide_soc);
    assert!(e.check_current_limit);
}

#[test]
fn connected_reading_sets_shore_flag() {
    let mut s = state();
    let e = apply_reading(&mut s, TopicKind::Connected, Some(1_000));
    assert!(s.shore_available);
    assert!(!e.decide_soc);
    assert!(e.check_current_limit);
    apply_reading(&mut s, TopicKind::Connected, Some(0));
    assert!(!s.shore_available);
}

#[test]
fn soc_reading_asks_for_a_decision() {
    let mut s = state();
    let e = apply_reading(&mut s, TopicKind::Soc, Some(55_000));
    assert!(e.decide_soc);
    assert!(e.check_current_limit);
    assert_eq!(s.last_soc, None);
}

#[test]
fn unparsed_or_other_readings_change_nothing() {
    let mut s = state();
    let e = apply_reading(&mut s, TopicKind::Soc, None);
    assert!(!e.decide_soc);
    assert!(e.check_current_limit);
    apply_reading(&mut s, TopicKind::CurrentLimit, None);
    apply_reading(&mut s, TopicKind::Connected, None);
    let e = apply_reading(&mut s, TopicKind::Other, Some(3));
    assert!(!e.decide_soc);
    assert!(e.check_current_limit);
    assert_eq!(s.ac_input, 0);
    assert!(!s.shore_available);
}
