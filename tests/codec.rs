use inexor_rgf_plugin_mqtt::codec::{decode_payload, encode_payload, MqttPayload, MqttPayloadMode};
use inexor_rgf_plugin_mqtt::json::{JsonNumber, JsonValue};

fn s(t: &str) -> JsonValue {
    JsonValue::String(t.to_string())
}

fn obj(entries: Vec<(&str, JsonValue)>) -> JsonValue {
    JsonValue::Object(entries.into_iter().map(|(k, v)| (k.to_string(), v)).collect())
}

fn round_trip(v: JsonValue) {
    let text = encode_payload(MqttPayloadMode::Json, &v);
    assert_eq!(decode_payload(MqttPayloadMode::Json, text), v);
}

#[test]
fn mode_parses_json_and_raw() {
    assert_eq!(MqttPayloadMode::from("json"), MqttPayloadMode::Json);
    assert_eq!(MqttPayloadMode::from("raw"), MqttPayloadMode::Raw);
}

#[test]
fn mode_falls_back_to_raw() {
    assert_eq!(MqttPayloadMode::from("JSON"), MqttPayloadMode::Raw);
    assert_eq!(MqttPayloadMode::from("Json"), MqttPayloadMode::Raw);
    assert_eq!(MqttPayloadMode::from(""), MqttPayloadMode::Raw);
    assert_eq!(MqttPayloadMode::from("jsonx"), MqttPayloadMode::Raw);
    assert_eq!(MqttPayloadMode::from("binary"), MqttPayloadMode::Raw);
}

#[test]
fn mode_names() {
    assert_eq!(MqttPayloadMode::Json.as_ref(), "Json");
    assert_eq!(MqttPayloadMode::Raw.as_ref(), "Raw");
}

#[test]
fn json_encoding_is_canonical_text() {
    let v = obj(vec![("x", JsonValue::Number(JsonNumber::PosInt(1)))]);
    assert_eq!(encode_payload(MqttPayloadMode::Json, &v), "{\"x\":1}");
    assert_eq!(encode_payload(MqttPayloadMode::Json, &s("hello")), "\"hello\"");
    assert_eq!(encode_payload(MqttPayloadMode::Json, &JsonValue::Null), "null");
    assert_eq!(
        encode_payload(MqttPayloadMode::Json, &JsonValue::Number(JsonNumber::NegInt(-7))),
        "-7"
    );
}

#[test]
fn json_round_trip_scalars() {
    round_trip(JsonValue::Null);
    round_trip(JsonValue::Bool(true));
    round_trip(JsonValue::Bool(false));
    round_trip(JsonValue::Number(JsonNumber::PosInt(0)));
    round_trip(JsonValue::Number(JsonNumber::PosInt(u64::MAX)));
    round_trip(JsonValue::Number(JsonNumber::NegInt(i64::MIN)));
    round_trip(s(""));
    round_trip(s("quote \" backslash \\ newline \n unicode \u{e9}\u{1F600}"));
}

#[test]
fn json_round_trip_nested() {
    let v = obj(vec![
        ("a", JsonValue::Array(vec![JsonValue::Null, s("x"), JsonValue::Number(JsonNumber::PosInt(3))])),
        ("b", obj(vec![("c", JsonValue::Bool(true)), ("d", JsonValue::Array(vec![]))])),
        ("z", obj(vec![])),
    ]);
    round_trip(v);
}

#[test]
fn json_round_trip_float() {
    let n = serde_json::Number::from_f64(1.5).unwrap();
    round_trip(JsonValue::Number(JsonNumber::Float(n)));
}

#[test]
fn json_decode_falls_back_to_text() {
    assert_eq!(decode_payload(MqttPayloadMode::Json, "hello".to_string()), s("hello"));
    assert_eq!(decode_payload(MqttPayloadMode::Json, "{\"y\":".to_string()), s("{\"y\":"));
}

#[test]
fn json_decode_parses_object() {
    assert_eq!(
        decode_payload(MqttPayloadMode::Json, "{\"y\":2}".to_string()),
        obj(vec![("y", JsonValue::Number(JsonNumber::PosInt(2)))])
    );
}

#[test]
fn json_decode_sorts_members() {
    assert_eq!(
        decode_payload(MqttPayloadMode::Json, "{\"b\":1,\"a\":2}".to_string()),
        obj(vec![
            ("a", JsonValue::Number(JsonNumber::PosInt(2))),
            ("b", JsonValue::Number(JsonNumber::PosInt(1))),
        ])
    );
}

#[test]
fn raw_round_trip() {
    for t in ["hello", "", "{\"x\":1}", "\u{e9}t\u{e9}"] {
        let text = encode_payload(MqttPayloadMode::Raw, &s(t));
        assert_eq!(text, t);
        assert_eq!(decode_payload(MqttPayloadMode::Raw, text), s(t));
    }
}

#[test]
fn raw_non_string_encodes_empty() {
    assert_eq!(encode_payload(MqttPayloadMode::Raw, &JsonValue::Null), "");
    assert_eq!(encode_payload(MqttPayloadMode::Raw, &JsonValue::Number(JsonNumber::PosInt(5))), "");
    assert_eq!(encode_payload(MqttPayloadMode::Raw, &obj(vec![("x", s("y"))])), "");
}

#[test]
fn raw_decode_keeps_json_text_as_string() {
    assert_eq!(decode_payload(MqttPayloadMode::Raw, "{\"y\":2}".to_string()), s("{\"y\":2}"));
}

#[test]
fn payload_to_string() {
    assert_eq!(MqttPayload::Json(s("hello")).to_string(), "\"hello\"");
    assert_eq!(MqttPayload::Raw(s("hello")).to_string(), "hello");
    assert_eq!(MqttPayload::Raw(JsonValue::Bool(true)).to_string(), "");
}
