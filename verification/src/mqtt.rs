use vstd::prelude::*;
use crate::config::Config;
use crate::state::{GeneratorStatus, State};

verus! {

/// Seconds between two requests to resend the subscribed topics.
pub const REFRESH_INTERVAL_SECS: u64 = 5u64;

/// MQTT delivery guarantee of a message or a subscription.
#[derive(PartialEq, Eq, Structural, Clone, Copy, Debug)]
pub enum QoS {
    AtMostOnce,
    AtLeastOnce,
    ExactlyOnce,
}

/// A message to publish on the MQTT broker.
pub struct Publication {
    pub topic: String,
    pub qos: QoS,
    /// Whether the broker keeps the message for later subscribers.
    pub retain: bool,
    pub payload: String,
}

/// A topic to subscribe to.
pub struct Subscription {
    pub topic: String,
    pub qos: QoS,
}

/// A topic with a Victron request prefix (`N/` notify, `R/` read, `W/` write).
pub open spec fn prefixed_topic(prefix: Seq<char>, topic: Seq<char>) -> Seq<char> {
    prefix + topic
}

/// The payload that asks the inverter for an AC input limit, given the
/// limit written as a number.
pub open spec fn ac_limit_payload(value: Seq<char>) -> Seq<char> {
    "{\"value\": "@ + value + "}"@
}

fn prefixed(prefix: &str, topic: &String) -> (r: String)
    ensures
        r@ == prefixed_topic(prefix@, topic@),
{
    let mut r = String::from_str(prefix);
    r.append(topic.as_str());
    r
}

fn subscription(topic: &String) -> (s: Subscription)
    ensures
        s.topic@ == "N/"@ + topic@,
        s.qos == QoS::AtLeastOnce,
{
    Subscription { topic: prefixed("N/", topic), qos: QoS::AtLeastOnce }
}

/// How to connect to the broker and what to subscribe to.
pub struct MqttSetup {
    pub client_id: String,
    pub host: String,
    pub port: u16,
    pub user: String,
    pub password: String,
    pub keep_alive_secs: u64,
    /// Capacity of the client's request queue.
    pub capacity: usize,
    /// Topics to subscribe to, in order.
    pub subscriptions: Vec<Subscription>,
}

/// The connection settings: the user name doubles as client id, the connection
/// is kept alive every 5 seconds, and the state of charge, the AC current
/// limit and the shore connection are subscribed to, in that order.
pub fn setup(config: &Config) -> (s: MqttSetup)
    ensures
        s.client_id@ == config.mqtt.user@,
        s.host@ == config.mqtt.host@,
        s.port == config.mqtt.port,
        s.user@ == config.mqtt.user@,
        s.password@ == config.mqtt.password@,
        s.keep_alive_secs == 5,
        s.capacity == 10,
        s.subscriptions@.len() == 3,
        s.subscriptions@[0].topic@ == "N/"@ + config.topics.soc@,
        s.subscriptions@[1].topic@ == "N/"@ + config.topics.current_limit@,
        s.subscriptions@[2].topic@ == "N/"@ + config.topics.shore_connected@,
        forall|i: int| 0 <= i < 3 ==> (#[trigger] s.subscriptions@[i]).qos == QoS::AtLeastOnce,
{
    let mut subscriptions: Vec<Subscription> = Vec::new();
    subscriptions.push(subscription(&config.topics.soc));
    subscriptions.push(subscription(&config.topics.current_limit));
    subscriptions.push(subscription(&config.topics.shore_connected));
    MqttSetup {
        client_id: config.mqtt.user.clone(),
        host: config.mqtt.host.clone(),
        port: config.mqtt.port,
        user: config.mqtt.user.clone(),
        password: config.mqtt.password.clone(),
        keep_alive_secs: 5,
        capacity: 10,
        subscriptions,
    }
}

/// The message that sets the inverter's AC input limit; `value` is the limit
/// written as a number of amps.
pub fn set_ac_limit(state: &State, value: &str) -> (p: Publication)
    ensures
        p.topic@ == "W/"@ + state.config.topics.current_limit@,
        p.qos == QoS::AtLeastOnce,
        !p.retain,
        p.payload@ == "{\"value\": "@ + value@ + "}"@,
{
    let topic = prefixed("W/", &state.config.topics.current_limit);
    let mut payload = String::from_str("{\"value\": ");
    payload.append(value);
    payload.append("}");
    Publication { topic, qos: QoS::AtLeastOnce, retain: false, payload }
}

fn refresh(topic: &String) -> (p: Publication)
    ensures
        p.topic@ == "R/"@ + topic@,
        p.qos == QoS::AtLeastOnce,
        !p.retain,
        p.payload@ == "please"@,
{
    Publication {
        topic: prefixed("R/", topic),
        qos: QoS::AtLeastOnce,
        retain: false,
        payload: String::from_str("please"),
    }
}

/// The messages that ask the broker to resend the current limit, the state of
/// charge and the shore connection, in that order.
pub fn refresh_topics(state: &State) -> (ps: Vec<Publication>)
    ensures
        ps@.len() == 3,
        ps@[0].topic@ == "R/"@ + state.config.topics.current_limit@,
        ps@[1].topic@ == "R/"@ + state.config.topics.soc@,
        ps@[2].topic@ == "R/"@ + state.config.topics.shore_connected@,
        forall|i: int| 0 <= i < 3 ==> {
            &&& (#[trigger] ps@[i]).payload@ == "please"@
            &&& ps@[i].qos == QoS::AtLeastOnce
            &&& !ps@[i].retain
        },
{
    let topics = &state.config.topics;
    let mut ps: Vec<Publication> = Vec::new();
    ps.push(refresh(&topics.current_limit));
    ps.push(refresh(&topics.soc));
    ps.push(refresh(&topics.shore_connected));
    ps
}

/// The AC input limit that fits the generator: its own limit while it runs,
/// the shore limit while it is off, none while it primes, starts or cannot be read.
pub open spec fn desired_ac_limit(state: State, generator: Option<GeneratorStatus>) -> Option<i64> {
    match generator {
        Some(GeneratorStatus::Running) => Some(state.config.generator.limit),
        Some(GeneratorStatus::Off) => Some(state.config.shore_limit),
        _ => None,
    }
}

/// Whether the reported AC input limit differs from the one that fits the generator.
pub open spec fn needs_new_ac_limit(state: State, generator: Option<GeneratorStatus>) -> bool {
    desired_ac_limit(state, generator) matches Some(d) && d != state.ac_input
}

/// The AC input limit to set, if the reported one needs correcting.
pub fn check_current_limit(state: &State, generator: Option<GeneratorStatus>) -> (r: Option<i64>)
    ensures
        r == (if needs_new_ac_limit(*state, generator) {
            desired_ac_limit(*state, generator)
        } else {
            None
        }),
        generator == Some(GeneratorStatus::Running) ==> r == (if state.ac_input
            != state.config.generator.limit {
            Some(state.config.generator.limit)
        } else {
            None
        }),
        generator == Some(GeneratorStatus::Off) ==> r == (if state.ac_input != state.config.shore_limit {
            Some(state.config.shore_limit)
        } else {
            None
        }),
        (generator != Some(GeneratorStatus::Running) && generator != Some(GeneratorStatus::Off))
            ==> r is None,
{
    let desired = match generator {
        Some(GeneratorStatus::Running) => Some(state.config.generator.limit),
        Some(GeneratorStatus::Off) => Some(state.config.shore_limit),
        _ => None,
    };
    match desired {
        Some(d) => {
            if state.ac_input != d {
                Some(d)
            } else {
                None
            }
        },
        None => None,
    }
}

} // verus!

verus! {

/// Once the inverter reports back the AC limit that the manager asked for (the
/// report is rounded to a half amp when it is recorded), no further correction
/// is sent, provided the wanted limit is a non-negative whole number of half
/// amps.
pub proof fn lemma_reported_limit_settles(s: State, generator: Option<GeneratorStatus>)
    requires
        desired_ac_limit(s, generator) matches Some(d) && d >= 0 && d % 500 == 0,
    ensures
        !needs_new_ac_limit(
            State {
                ac_input: crate::units::spec_round_to_half(desired_ac_limit(s, generator)->0 as int) as i64,
                ..s
            },
            generator,
        ),
{
    let d = desired_ac_limit(s, generator)->0 as int;
    let q = d / 500;
    assert(d == q * 500);
    assert((q * 500 + 400) / 500 == q) by (nonlinear_arith)
        requires q >= 0;
}

/// The AC limit follows the power source in use: while the generator is read
/// as running it is the generator's limit, whatever the shore limit; while it
/// is read as off it is the shore limit, whatever the generator's limit; while
/// it primes, starts or cannot be read, no limit is asked for. A limit is asked
/// for exactly when it differs from the reported one.
pub proof fn lemma_limit_follows_power_source(
    s: State,
    generator: Option<GeneratorStatus>,
    r: Option<i64>,
)
    requires
        r == (if needs_new_ac_limit(s, generator) {
            desired_ac_limit(s, generator)
        } else {
            None
        }),
    ensures
        generator == Some(GeneratorStatus::Running) ==> (r is Some <==> s.ac_input
            != s.config.generator.limit) && (r matches Some(l) ==> l == s.config.generator.limit),
        generator == Some(GeneratorStatus::Off) ==> (r is Some <==> s.ac_input != s.config.shore_limit)
            && (r matches Some(l) ==> l == s.config.shore_limit),
        (generator != Some(GeneratorStatus::Running) && generator != Some(GeneratorStatus::Off))
            ==> r is None,
{
}

} // verus!
