//! The payload codec: how a value travels as the text of an MQTT message.

use crate::json::{text_equals, JsonNumber, JsonValue};
use serde_json::Value as SerdeValue;
use vstd::prelude::*;
use vstd::string::*;

verus! {

#[verifier::external_type_specification]
#[verifier::external_body]
pub struct ExValue(serde_json::Value);

/// The JSON text that serde_json writes for a value.
pub uninterp spec fn json_text(v: JsonValue) -> Seq<char>;

/// What serde_json reads from a text: a value, or nothing where the text is not JSON.
pub uninterp spec fn json_parse(text: Seq<char>) -> Option<JsonValue>;

/// Converts a value to serde_json's own representation, variant for variant
/// (used by `write_json` only).
#[verifier::external_body]
fn serde_value_of(v: &JsonValue) -> SerdeValue {
    match v {
        JsonValue::Null => SerdeValue::Null,
        JsonValue::Bool(b) => SerdeValue::Bool(*b),
        JsonValue::Number(JsonNumber::PosInt(n)) => SerdeValue::from(*n),
        JsonValue::Number(JsonNumber::NegInt(n)) => SerdeValue::from(*n),
        JsonValue::Number(JsonNumber::Float(n)) => SerdeValue::Number(n.clone()),
        JsonValue::String(s) => SerdeValue::String(s.clone()),
        JsonValue::Array(items) => items.iter().map(serde_value_of).collect(),
        JsonValue::Object(entries) => entries.iter().map(|(k, x)| (k.clone(), serde_value_of(x))).collect(),
    }
}

/// Converts serde_json's representation of a value back, variant for variant:
/// a number becomes `PosInt` or `NegInt` where serde_json holds it as an integer
/// (used by `read_json` only).
#[verifier::external_body]
fn json_value_of(v: &SerdeValue) -> JsonValue {
    match v {
        SerdeValue::Null => JsonValue::Null,
        SerdeValue::Bool(b) => JsonValue::Bool(*b),
        SerdeValue::Number(n) => JsonValue::Number(match (n.as_u64(), n.as_i64()) {
            (Some(u), _) => JsonNumber::PosInt(u),
            (None, Some(i)) => JsonNumber::NegInt(i),
            _ => JsonNumber::Float(n.clone()),
        }),
        SerdeValue::String(s) => JsonValue::String(s.clone()),
        SerdeValue::Array(items) => JsonValue::Array(items.iter().map(json_value_of).collect()),
        SerdeValue::Object(m) => JsonValue::Object(m.iter().map(|(k, x)| (k.clone(), json_value_of(x))).collect()),
    }
}

/// Relies on serde_json::to_string, which writes the JSON text of a value
/// (it cannot fail on a value whose object keys are strings).
#[verifier::external_body]
fn write_json(v: &JsonValue) -> (r: String)
    ensures
        r@ == json_text(*v),
{
    serde_json::to_string(&serde_value_of(v)).unwrap_or_default()
}

/// Relies on serde_json::from_str: parses a text as JSON; the result depends on
/// the text alone. What serde_json::to_string wrote for a value reads back as
/// that value where the value is well-formed (no float, which stays an opaque
/// serde_json number here; object members in strictly increasing key order, as
/// serde_json's sorted maps give them back) and nests no deeper than the parser's
/// recursion limit of 128 lets it read.
#[verifier::external_body]
fn read_json(text: &str) -> (r: Option<JsonValue>)
    ensures
        r == json_parse(text@),
        forall|v: JsonValue|
            v.well_formed() && v.nests_within(127) && #[trigger] json_text(v) == text@ ==> r
                == Some(v),
{
    serde_json::from_str::<SerdeValue>(text).ok().as_ref().map(json_value_of)
}

/// How a payload is written into, and read out of, a message.
#[derive(Copy, Clone, Debug, PartialEq, Eq)]
pub enum MqttPayloadMode {
    Json,
    Raw,
}

impl MqttPayloadMode {
    /// The mode a mode name selects: `"json"` selects `Json`, anything else `Raw`.
    pub open spec fn named(name: Seq<char>) -> MqttPayloadMode {
        if name == "json"@ {
            MqttPayloadMode::Json
        } else {
            MqttPayloadMode::Raw
        }
    }

    /// Reads a mode name; names are case-sensitive and unknown ones fall back to `Raw`.
    pub fn from(mode: &str) -> (r: MqttPayloadMode)
        ensures
            r == Self::named(mode@),
    {
        if text_equals(mode, "json") {
            MqttPayloadMode::Json
        } else {
            MqttPayloadMode::Raw
        }
    }

    /// The variant's name.
    pub fn as_ref(&self) -> (r: &'static str)
        ensures
            r@ == (match self {
                MqttPayloadMode::Json => "Json"@,
                MqttPayloadMode::Raw => "Raw"@,
            }),
    {
        match self {
            MqttPayloadMode::Json => "Json",
            MqttPayloadMode::Raw => "Raw",
        }
    }
}

/// The text that carries `v` under `mode`: its JSON text, or under `Raw` the
/// string itself (nothing for a value that is not a string).
pub open spec fn encoded(mode: MqttPayloadMode, v: JsonValue) -> Seq<char> {
    match mode {
        MqttPayloadMode::Json => json_text(v),
        MqttPayloadMode::Raw => match v.text() {
            Some(t) => t,
            None => Seq::empty(),
        },
    }
}

/// The value that a message text carries under `mode`, as a relation between
/// the text and the value read: under `Json` what serde_json parses, or the text
/// as a string where it is not JSON; under `Raw` the text as a string.
pub open spec fn decoded(mode: MqttPayloadMode, text: Seq<char>, r: JsonValue) -> bool {
    match mode {
        MqttPayloadMode::Json => match json_parse(text) {
            Some(v) => r == v,
            None => r.text() == Some(text),
        },
        MqttPayloadMode::Raw => r.text() == Some(text),
    }
}

/// Writes `v` as message text under `mode`.
pub fn encode_payload(mode: MqttPayloadMode, v: &JsonValue) -> (r: String)
    ensures
        r@ == encoded(mode, *v),
{
    match mode {
        MqttPayloadMode::Json => write_json(v),
        MqttPayloadMode::Raw => match v.as_str() {
            Some(t) => t.to_string(),
            None => String::new(),
        },
    }
}

/// Reads the value that a message text carries under `mode`. Under `Json`, the
/// JSON text of any well-formed value (see `JsonValue::well_formed`) nested at
/// most 127 deep reads back as exactly that value.
pub fn decode_payload(mode: MqttPayloadMode, text: String) -> (r: JsonValue)
    ensures
        decoded(mode, text@, r),
        mode == MqttPayloadMode::Json ==> forall|v: JsonValue|
            v.well_formed() && v.nests_within(127) && #[trigger] json_text(v) == text@ ==> r == v,
{
    match mode {
        MqttPayloadMode::Json => match read_json(text.as_str()) {
            Some(v) => v,
            None => JsonValue::String(text),
        },
        MqttPayloadMode::Raw => JsonValue::String(text),
    }
}

/// A payload paired with the mode it is to be written in.
pub enum MqttPayload {
    Json(JsonValue),
    Raw(JsonValue),
}

impl MqttPayload {
    /// The mode of the payload.
    pub open spec fn mode(&self) -> MqttPayloadMode {
        match self {
            MqttPayload::Json(_) => MqttPayloadMode::Json,
            MqttPayload::Raw(_) => MqttPayloadMode::Raw,
        }
    }

    /// The value carried.
    pub open spec fn value(&self) -> JsonValue {
        match self {
            MqttPayload::Json(v) => *v,
            MqttPayload::Raw(v) => *v,
        }
    }

    /// The message text of the payload.
    pub fn to_string(&self) -> (r: String)
        ensures
            r@ == encoded(self.mode(), self.value()),
    {
        match self {
            MqttPayload::Json(v) => encode_payload(MqttPayloadMode::Json, v),
            MqttPayload::Raw(v) => encode_payload(MqttPayloadMode::Raw, v),
        }
    }
}

/// Under `Raw`, a string encodes to its own text and that text decodes to the
/// same string; any other value encodes to the empty text.
pub proof fn law_raw_round_trip(v: JsonValue, r: JsonValue)
    requires
        decoded(MqttPayloadMode::Raw, encoded(MqttPayloadMode::Raw, v), r),
    ensures
        v.text() is Some ==> r.text() == v.text(),
        v.text() is None ==> encoded(MqttPayloadMode::Raw, v) == Seq::<char>::empty() && r.text()
            == Some(Seq::<char>::empty()),
{
}

/// Every mode name other than `"json"` and `"raw"` selects `Raw`.
pub proof fn law_mode_fallback(name: Seq<char>)
    requires
        name != "json"@,
        name != "raw"@,
    ensures
        MqttPayloadMode::named(name) == MqttPayloadMode::Raw,
{
}

} // verus!
