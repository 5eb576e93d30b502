use vstd::prelude::*;
use crate::generator::{check_shore_available, record_current_limit};
use crate::state::State;
use crate::units::spec_round_to_half;

verus! {

#[verifier::external_type_specification]
#[verifier::external_body]
pub struct ExJsonError(serde_json::Error);

/// What Unicode lower-casing (`str::to_lowercase`) makes of a text.
pub uninterp spec fn spec_to_lowercase(s: Seq<char>) -> Seq<char>;

/// The text that serde_json renders for the member `key` of the JSON document
/// `payload` (`null` when the document has no such member), or `None` when
/// `payload` is not a JSON document. It names the composition of three
/// serde_json operations: parsing the bytes into a `Value` (`from_slice`),
/// looking up the member (`Index` by `&str`) and rendering it (`Display`);
/// the `Value` in between is opaque, so only the composition is named.
pub uninterp spec fn json_member_text(payload: Seq<u8>, key: Seq<char>) -> Option<Seq<char>>;

/// Calls `str::to_lowercase`; its result is named by `spec_to_lowercase`.
#[verifier::external_body]
fn to_lowercase(s: &str) -> (r: String)
    ensures
        r@ == spec_to_lowercase(s@),
{
    s.to_lowercase()
}

/// Calls `serde_json::from_slice` into a `serde_json::Value`, indexes the
/// result with `key` (serde_json's `Index` for `&str`) and renders that with
/// `to_string`. The contract claims only that the outcome is the one named by
/// `json_member_text` for these bytes and this key: `Err` exactly when the
/// name is `None`.
#[verifier::external_body]
fn json_member_text_of(payload: &[u8], key: &str) -> (r: Result<String, serde_json::Error>)
    ensures
        r is Ok <==> json_member_text(payload@, key@) is Some,
        r matches Ok(s) ==> json_member_text(payload@, key@) == Some(s@),
{
    match serde_json::from_slice::<serde_json::Value>(payload) {
        Ok(v) => Ok(v[key].to_string()),
        Err(e) => Err(e),
    }
}

/// The part of a topic after its last `/` (the whole topic when it has none).
pub open spec fn last_segment(topic: Seq<char>) -> Seq<char>
    decreases topic.len(),
{
    if topic.len() == 0 {
        topic
    } else if topic.last() == '/' {
        Seq::empty()
    } else {
        last_segment(topic.drop_last()).push(topic.last())
    }
}

/// The last segment of a topic holds no `/`, is the end of the topic, and is
/// either the whole topic or follows a `/`.
pub proof fn lemma_last_segment_shape(topic: Seq<char>)
    ensures
        last_segment(topic).len() <= topic.len(),
        last_segment(topic) == topic.subrange(topic.len() - last_segment(topic).len(), topic.len() as int),
        forall|i: int| 0 <= i < last_segment(topic).len() ==> last_segment(topic)[i] != '/',
        last_segment(topic).len() == topic.len() || topic[topic.len() - last_segment(topic).len() - 1]
            == '/',
    decreases topic.len(),
{
    if topic.len() == 0 {
        assert(topic.subrange(0, 0) =~= topic);
    } else if topic.last() == '/' {
        assert(topic.subrange(topic.len() as int, topic.len() as int) =~= Seq::<char>::empty());
    } else {
        let p = topic.drop_last();
        lemma_last_segment_shape(p);
        let r = last_segment(p);
        assert(p.subrange(p.len() - r.len(), p.len() as int).push(topic.last()) =~= topic.subrange(
            topic.len() - r.len() - 1,
            topic.len() as int,
        ));
        if r.len() < p.len() {
            assert(topic[topic.len() - r.len() - 2] == p[p.len() - r.len() - 1]);
        }
    }
}

/// The readings that the manager acts on.
#[derive(PartialEq, Eq, Structural, Clone, Copy, Debug)]
pub enum TopicKind {
    Soc,
    CurrentLimit,
    Connected,
    Other,
}

/// The reading that a lower-cased topic name stands for.
pub open spec fn name_kind(name: Seq<char>) -> TopicKind {
    if name == "soc"@ {
        TopicKind::Soc
    } else if name == "currentlimit"@ {
        TopicKind::CurrentLimit
    } else if name == "connected"@ {
        TopicKind::Connected
    } else {
        TopicKind::Other
    }
}

/// A topic is known by its last segment, compared after lower-casing.
pub open spec fn topic_kind(topic: Seq<char>) -> TopicKind {
    name_kind(spec_to_lowercase(last_segment(topic)))
}

/// The part of `topic` after its last `/`.
pub fn last_topic_segment(topic: &str) -> (r: &str)
    ensures
        r@ == last_segment(topic@),
{
    let n = topic.unicode_len();
    let ghost t = topic@;
    let mut k = n;
    assert(t.subrange(0, n as int) =~= t);
    assert(t.subrange(n as int, n as int) =~= Seq::<char>::empty());
    loop
        invariant
            n == t.len(),
            t == topic@,
            k <= n,
            last_segment(t) == last_segment(t.subrange(0, k as int)) + t.subrange(k as int, n as int),
        ensures
            last_segment(t) == t.subrange(k as int, n as int),
        decreases k,
    {
        if k == 0 {
            assert(t.subrange(0, 0) =~= Seq::<char>::empty());
            break;
        }
        let c = topic.get_char(k - 1);
        let ghost prefix = t.subrange(0, k as int);
        assert(prefix.last() == c);
        if c == '/' {
            break;
        }
        assert(prefix.drop_last() =~= t.subrange(0, k - 1));
        assert(seq![c] + t.subrange(k as int, n as int) =~= t.subrange(k - 1, n as int));
        assert(last_segment(prefix) == last_segment(t.subrange(0, k - 1)).push(c));
        assert(last_segment(t.subrange(0, k - 1)).push(c) + t.subrange(k as int, n as int)
            =~= last_segment(t.subrange(0, k - 1)) + t.subrange(k - 1, n as int));
        k = k - 1;
    }
    topic.substring_char(k, n)
}

/// Tells which reading a lower-cased topic name stands for.
pub fn kind_of_name(name: &str) -> (k: TopicKind)
    ensures
        k == name_kind(name@),
{
    let name = String::from_str(name);
    if name == String::from_str("soc") {
        TopicKind::Soc
    } else if name == String::from_str("currentlimit") {
        TopicKind::CurrentLimit
    } else if name == String::from_str("connected") {
        TopicKind::Connected
    } else {
        TopicKind::Other
    }
}

/// Tells which reading a topic carries.
pub fn classify_topic(topic: &str) -> (kind: TopicKind)
    ensures
        kind == topic_kind(topic@),
{
    let segment = last_topic_segment(topic);
    let name = to_lowercase(segment);
    kind_of_name(name.as_str())
}

/// A reading taken from an MQTT message: which one, and its value as text.
pub struct Reading {
    pub kind: TopicKind,
    pub value: String,
}

/// Why a message could not be read.
pub enum NotificationError {
    /// The payload is not JSON.
    Json(serde_json::Error),
}

/// Reads a message that the broker published: the kind comes from the topic,
/// the value is the text of the payload's `value` member, where Victron
/// messages carry their reading.
pub fn handle_notification(topic: &str, payload: &[u8]) -> (r: Result<Reading, NotificationError>)
    ensures
        r is Ok <==> json_member_text(payload@, "value"@) is Some,
        r matches Ok(reading) ==> {
            &&& reading.kind == topic_kind(topic@)
            &&& json_member_text(payload@, "value"@) == Some(reading.value@)
        },
{
    let kind = classify_topic(topic);
    match json_member_text_of(payload, "value") {
        Ok(value) => Ok(Reading { kind, value }),
        Err(e) => Err(NotificationError::Json(e)),
    }
}

/// What the caller does after a reading was applied.
pub struct ReadingEffect {
    /// Decide on the generator with the new state of charge.
    pub decide_soc: bool,
    /// Check the AC input limit against the generator.
    pub check_current_limit: bool,
}

/// Applies a reading whose value was parsed into thousandths (`None` when it
/// could not be parsed): a current limit is recorded rounded to a half amp, a
/// shore connection reading sets the shore flag, and a state of charge is left
/// to the decision that follows. Every message is followed by a check of the
/// AC input limit.
pub fn apply_reading(state: &mut State, kind: TopicKind, value: Option<i64>) -> (e: ReadingEffect)
    requires
        value matches Some(v) ==> v <= i64::MAX - 400,
    ensures
        (kind == TopicKind::CurrentLimit && value is Some) ==> *final(state) == (State {
            ac_input: spec_round_to_half(value->0 as int) as i64,
            ..*old(state)
        }),
        (kind == TopicKind::Connected && value is Some) ==> *final(state) == (State {
            shore_available: value->0 != 0,
            ..*old(state)
        }),
        (kind == TopicKind::Soc || kind == TopicKind::Other || value is None) ==> *final(state)
            == *old(state),
        e.decide_soc == (kind == TopicKind::Soc && value is Some),
        e.check_current_limit,
{
    match kind {
        TopicKind::CurrentLimit => {
            if let Some(v) = value {
                record_current_limit(state, v);
            }
        },
        TopicKind::Connected => {
            if let Some(v) = value {
                check_shore_available(state, v);
            }
        },
        _ => {},
    }
    let decide_soc = match kind {
        TopicKind::Soc => value.is_some(),
        _ => false,
    };
    ReadingEffect { decide_soc, check_current_limit: true }
}

} // verus!
