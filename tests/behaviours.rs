use inexor_rgf_plugin_mqtt::broker::{
    BehaviourCreationError, ConnectionEvent, MqttBroker, MqttQos, PollOutcome, POLL_INTERVAL_MS,
    RECONNECT_BACKOFF_MS,
};
use inexor_rgf_plugin_mqtt::json::{JsonNumber, JsonValue};
use inexor_rgf_plugin_mqtt::model::{EntityInstance, PropertyInstance, RelationInstance};
use inexor_rgf_plugin_mqtt::relation::{MqttPublishes, MqttSubscribes};

const BROKER_ID: u128 = 0x67e5_5044_10b1_426f_9247_bb68_0e5f_e0c8;
const ENDPOINT_ID: u128 = 0x1111_2222_3333_4444_5555_6666_7777_8888;
const SEND_ID: u128 = 101;
const RECEIVED_ID: u128 = 102;
const PAYLOAD_ID: u128 = 201;

fn s(t: &str) -> JsonValue {
    JsonValue::String(t.to_string())
}

fn num(n: u64) -> JsonValue {
    JsonValue::Number(JsonNumber::PosInt(n))
}

fn obj(entries: Vec<(&str, JsonValue)>) -> JsonValue {
    JsonValue::Object(entries.into_iter().map(|(k, v)| (k.to_string(), v)).collect())
}

fn prop(name: &str, id: u128, value: JsonValue) -> PropertyInstance {
    PropertyInstance { name: name.to_string(), id, value }
}

fn broker_entity(extra: Vec<PropertyInstance>) -> EntityInstance {
    let mut properties = vec![
        prop("send_package", SEND_ID, obj(vec![])),
        prop("received_package", RECEIVED_ID, obj(vec![])),
    ];
    properties.extend(extra);
    EntityInstance { id: BROKER_ID, type_label: "mqtt_broker".to_string(), properties }
}

fn endpoint() -> EntityInstance {
    EntityInstance {
        id: ENDPOINT_ID,
        type_label: "endpoint".to_string(),
        properties: vec![prop("payload", PAYLOAD_ID, s(""))],
    }
}

fn edge(type_label: &str, topic: &str, mode: &str) -> RelationInstance {
    let (outbound, inbound) = if type_label == "mqtt_publishes" {
        (endpoint(), broker_entity(vec![]))
    } else {
        (broker_entity(vec![]), endpoint())
    };
    RelationInstance {
        outbound,
        type_label: type_label.to_string(),
        inbound,
        properties: vec![prop("topic", 301, s(topic)), prop("mode", 302, s(mode))],
    }
}

fn broker() -> MqttBroker {
    MqttBroker::new(&broker_entity(vec![prop("hostname", 1, s("h")), prop("port", 2, num(1883))])).unwrap()
}

#[test]
fn broker_reads_host_and_port() {
    let b = broker();
    assert_eq!(b.hostname, "h");
    assert_eq!(b.port, 1883);
    assert_eq!(b.handle_id, SEND_ID);
    assert_eq!(b.entity_id, BROKER_ID);
    assert_eq!(b.type_label(), "mqtt_broker");
}

#[test]
fn broker_defaults() {
    let b = MqttBroker::new(&broker_entity(vec![])).unwrap();
    assert_eq!(b.hostname, "localhost");
    assert_eq!(b.port, 1883);
}

#[test]
fn broker_port_of_wrong_type_falls_back() {
    let b = MqttBroker::new(&broker_entity(vec![prop("port", 2, s("1884"))])).unwrap();
    assert_eq!(b.port, 1883);
    let b = MqttBroker::new(&broker_entity(vec![prop("hostname", 1, num(5))])).unwrap();
    assert_eq!(b.hostname, "localhost");
}

#[test]
fn broker_port_is_cut_to_16_bits() {
    let b = MqttBroker::new(&broker_entity(vec![prop("port", 2, num(65536 + 8883))])).unwrap();
    assert_eq!(b.port, 8883);
}

#[test]
fn broker_client_id() {
    let b = broker();
    assert_eq!(b.client_id, "inexor-67e55044-10b1-426f-9247-bb680e5fe0c8");
}

#[test]
fn broker_needs_both_packages() {
    let mut e = broker_entity(vec![]);
    e.properties.remove(0);
    assert_eq!(MqttBroker::new(&e), Err(BehaviourCreationError));
    let mut e = broker_entity(vec![]);
    e.properties.remove(1);
    assert_eq!(MqttBroker::new(&e), Err(BehaviourCreationError));
}

#[test]
fn broker_subscribes_to_everything() {
    let sub = broker().subscription();
    assert_eq!(sub.topic_filter, "#");
    assert_eq!(sub.qos, MqttQos::AtMostOnce);
}

#[test]
fn publish_happy_path() {
    let p = MqttPublishes::new(&edge("mqtt_publishes", "a/b", "json"));
    let package = p.on_payload(obj(vec![("x", num(1))]));
    let req = broker().on_send_package(&package).unwrap();
    assert_eq!(req.topic, "a/b");
    assert_eq!(req.qos, MqttQos::AtLeastOnce);
    assert!(!req.retain);
    assert_eq!(req.payload, "{\"x\":1}");
}

#[test]
fn publish_raw_mode() {
    let p = MqttPublishes::new(&edge("mqtt_publishes", "a/b", "raw"));
    let req = broker().on_send_package(&p.on_payload(s("hello"))).unwrap();
    assert_eq!(req.payload, "hello");
}

#[test]
fn publishes_builds_package() {
    let p = MqttPublishes::new(&edge("mqtt_publishes", "t", "raw"));
    assert_eq!(p.handle_id, PAYLOAD_ID);
    assert_eq!(p.type_label(), "mqtt_publishes");
    assert_eq!(p.target(), (BROKER_ID, "send_package"));
    assert_eq!(
        p.on_payload(num(4)),
        obj(vec![("mode", s("raw")), ("payload", num(4)), ("topic", s("t"))])
    );
}

#[test]
fn publishes_defaults() {
    let mut r = edge("mqtt_publishes", "", "");
    r.properties.clear();
    let p = MqttPublishes::new(&r);
    assert_eq!(p.topic, "");
    assert_eq!(p.mode, "json");
}

#[test]
fn send_package_missing_field_is_dropped() {
    let b = broker();
    assert!(b.on_send_package(&obj(vec![("mode", s("json")), ("payload", num(1))])).is_none());
    assert!(b.on_send_package(&obj(vec![("payload", num(1)), ("topic", s("a"))])).is_none());
    assert!(b.on_send_package(&obj(vec![("mode", s("json")), ("topic", s("a"))])).is_none());
    assert!(b.on_send_package(&obj(vec![("mode", s("json")), ("payload", num(1)), ("topic", num(2))])).is_none());
    assert!(b.on_send_package(&s("not a package")).is_none());
}

#[test]
fn send_package_unknown_mode_is_raw() {
    let pkg = obj(vec![("mode", s("RAW?")), ("payload", s("x")), ("topic", s("a"))]);
    assert_eq!(broker().on_send_package(&pkg).unwrap().payload, "x");
}

#[test]
fn publish_all_keeps_order() {
    let p = MqttPublishes::new(&edge("mqtt_publishes", "a/b", "json"));
    let reqs = p.publish_all(&broker(), vec![num(1), num(2), s("three"), num(4)]);
    let texts: Vec<&str> = reqs.iter().map(|r| r.payload.as_str()).collect();
    assert_eq!(texts, vec!["1", "2", "\"three\"", "4"]);
    assert!(reqs.iter().all(|r| r.topic == "a/b"));
}

#[test]
fn inbound_json_payload() {
    let pkg = MqttBroker::on_incoming("a/b".to_string(), &b"{\"y\":2}".to_vec());
    assert_eq!(pkg, obj(vec![("payload", obj(vec![("y", num(2))])), ("topic", s("a/b"))]));
}

#[test]
fn inbound_non_json_payload() {
    let pkg = MqttBroker::on_incoming("a/b".to_string(), &b"hello".to_vec());
    assert_eq!(pkg, obj(vec![("payload", s("hello")), ("topic", s("a/b"))]));
}

#[test]
fn inbound_invalid_utf8_is_replaced() {
    let pkg = MqttBroker::on_incoming("t".to_string(), &vec![b'a', 0xff, b'b']);
    assert_eq!(pkg, obj(vec![("payload", s("a\u{fffd}b")), ("topic", s("t"))]));
}

#[test]
fn subscribe_happy_path() {
    let sub = MqttSubscribes::new(&edge("mqtt_subscribes", "a/b", "json"));
    let pkg = MqttBroker::on_incoming("a/b".to_string(), &b"{\"y\":2}".to_vec());
    assert_eq!(sub.on_received(&pkg), Some(&obj(vec![("y", num(2))])));
    assert_eq!(sub.target(), (ENDPOINT_ID, "payload"));
}

#[test]
fn subscribe_non_json() {
    let sub = MqttSubscribes::new(&edge("mqtt_subscribes", "a/b", "json"));
    let pkg = MqttBroker::on_incoming("a/b".to_string(), &b"hello".to_vec());
    assert_eq!(sub.on_received(&pkg), Some(&s("hello")));
}

#[test]
fn subscribe_rejects_other_topic() {
    let sub = MqttSubscribes::new(&edge("mqtt_subscribes", "a/b", "json"));
    let pkg = MqttBroker::on_incoming("a/c".to_string(), &b"{\"y\":2}".to_vec());
    assert_eq!(sub.on_received(&pkg), None);
}

#[test]
fn subscribe_topic_match_is_exact() {
    let sub = MqttSubscribes::new(&edge("mqtt_subscribes", "a/+", "json"));
    for topic in ["a/b", "a/", "A/+", "a/+/c"] {
        let pkg = MqttBroker::on_incoming(topic.to_string(), &b"1".to_vec());
        assert_eq!(sub.on_received(&pkg), None);
    }
    let pkg = MqttBroker::on_incoming("a/+".to_string(), &b"1".to_vec());
    assert_eq!(sub.on_received(&pkg), Some(&num(1)));
}

#[test]
fn subscribe_drops_incomplete_packages() {
    let sub = MqttSubscribes::new(&edge("mqtt_subscribes", "a", "json"));
    assert_eq!(sub.on_received(&obj(vec![("payload", num(1))])), None);
    assert_eq!(sub.on_received(&obj(vec![("topic", s("a"))])), None);
    assert_eq!(sub.on_received(&obj(vec![("payload", num(1)), ("topic", num(7))])), None);
}

#[test]
fn observers_sit_where_they_were_installed() {
    let b = broker();
    let k = b.disconnect();
    assert!(k.stop_event_loop);
    assert_eq!((k.observer.entity_id, k.observer.property.as_str(), k.observer.handle_id), (BROKER_ID, "send_package", SEND_ID));
    let p = MqttPublishes::new(&edge("mqtt_publishes", "a", "json"));
    let k = p.disconnect();
    assert_eq!((k.entity_id, k.property.as_str(), k.handle_id), (ENDPOINT_ID, "payload", PAYLOAD_ID));
    let sub = MqttSubscribes::new(&edge("mqtt_subscribes", "a", "json"));
    let k = sub.disconnect();
    assert_eq!((k.entity_id, k.property.as_str(), k.handle_id), (BROKER_ID, "received_package", PAYLOAD_ID));
}

#[test]
fn event_loop_decisions() {
    let out = MqttBroker::on_event(ConnectionEvent::Publish { topic: "t".to_string(), payload: b"2".to_vec() });
    assert_eq!(out.received_package, Some(obj(vec![("payload", num(2)), ("topic", s("t"))])));
    assert_eq!(out.backoff_ms, 0);
    let out = MqttBroker::on_event(ConnectionEvent::IoError);
    assert!(out.report_error && out.received_package.is_none());
    assert_eq!(out.backoff_ms, RECONNECT_BACKOFF_MS);
    assert_eq!(RECONNECT_BACKOFF_MS, 2000);
    let out = MqttBroker::on_event(ConnectionEvent::OtherError);
    assert!(!out.report_error);
    assert_eq!(out.backoff_ms, 2000);
    let out = MqttBroker::on_event(ConnectionEvent::Outgoing);
    assert!(out.received_package.is_none() && !out.report_error && out.backoff_ms == 0);
    let out = MqttBroker::on_event(ConnectionEvent::OtherIncoming);
    assert!(out.received_package.is_none() && out.backoff_ms == 0);
    assert_eq!(MqttBroker::after_event(true), PollOutcome::Stop);
    assert_eq!(MqttBroker::after_event(false), PollOutcome::Pause(POLL_INTERVAL_MS));
    assert_eq!(POLL_INTERVAL_MS, 100);
}
