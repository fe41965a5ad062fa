use inexor_rgf_plugin_mqtt::json::JsonValue;
use inexor_rgf_plugin_mqtt::model::{EdgeKey, EntityInstance, PropertyInstance, RelationInstance};
use inexor_rgf_plugin_mqtt::plugin::{MqttPluginImpl, PluginError};
use inexor_rgf_plugin_mqtt::properties::{
    MqttBrokerProperties, MqttEndpointProperties, MqttTopicProperties,
};
use inexor_rgf_plugin_mqtt::provider::{
    MqttEntityBehaviourProviderImpl, MqttRelationBehaviourProviderImpl,
};
use inexor_rgf_plugin_mqtt::reactive::{handle_id_of, PropertyObservers};

fn prop(name: &str, id: u128, value: JsonValue) -> PropertyInstance {
    PropertyInstance { name: name.to_string(), id, value }
}

fn broker_entity(id: u128, type_label: &str, host: &str) -> EntityInstance {
    EntityInstance {
        id,
        type_label: type_label.to_string(),
        properties: vec![
            prop("hostname", id + 1, JsonValue::String(host.to_string())),
            prop("send_package", id + 2, JsonValue::Object(vec![])),
            prop("received_package", id + 3, JsonValue::Object(vec![])),
        ],
    }
}

fn endpoint(id: u128) -> EntityInstance {
    EntityInstance {
        id,
        type_label: "endpoint".to_string(),
        properties: vec![prop("payload", id + 1, JsonValue::String(String::new()))],
    }
}

fn edge(type_label: &str, from: EntityInstance, to: EntityInstance, topic: &str) -> RelationInstance {
    RelationInstance {
        outbound: from,
        type_label: type_label.to_string(),
        inbound: to,
        properties: vec![prop("topic", 900, JsonValue::String(topic.to_string()))],
    }
}

#[test]
fn handle_id_is_the_property_id() {
    let p = prop("payload", 0xdead_beef_u128 << 64, JsonValue::Null);
    assert_eq!(handle_id_of(&p), 0xdead_beef_u128 << 64);
    assert_eq!(handle_id_of(&p), handle_id_of(&p));
}

#[test]
fn removal_succeeds_only_with_the_same_handle() {
    let mut stream = PropertyObservers::new();
    stream.observe_with_handle(7);
    assert!(!stream.remove(8));
    assert!(stream.is_observed_by(7));
    assert!(stream.remove(7));
    assert!(!stream.is_observed_by(7));
    assert!(!stream.remove(7));
}

#[test]
fn observing_twice_keeps_one_observer() {
    let mut stream = PropertyObservers::new();
    stream.observe_with_handle(7);
    stream.observe_with_handle(9);
    stream.observe_with_handle(7);
    assert_eq!(stream.notified(), vec![7, 9]);
}

#[test]
fn entity_registry_adds_brokers_only() {
    let mut reg = MqttEntityBehaviourProviderImpl::new();
    assert!(reg.add_behaviours(&broker_entity(10, "mqtt_broker", "h")).is_none());
    assert_eq!(reg.get(10).unwrap().hostname, "h");
    assert!(reg.add_behaviours(&broker_entity(20, "something_else", "h")).is_none());
    assert!(reg.get(20).is_none());
}

#[test]
fn entity_registry_skips_incomplete_broker() {
    let mut reg = MqttEntityBehaviourProviderImpl::new();
    let mut e = broker_entity(10, "mqtt_broker", "h");
    e.properties.pop();
    assert!(reg.add_behaviours(&e).is_none());
    assert!(reg.get(10).is_none());
}

#[test]
fn entity_registry_replaces_and_hands_back() {
    let mut reg = MqttEntityBehaviourProviderImpl::new();
    reg.add_behaviours(&broker_entity(10, "mqtt_broker", "first"));
    let old = reg.add_behaviours(&broker_entity(10, "mqtt_broker", "second")).unwrap();
    assert_eq!(old.hostname, "first");
    assert_eq!(reg.get(10).unwrap().hostname, "second");
}

#[test]
fn entity_registry_removes() {
    let mut reg = MqttEntityBehaviourProviderImpl::new();
    let e = broker_entity(10, "mqtt_broker", "h");
    reg.add_behaviours(&e);
    assert!(reg.remove_behaviours(&broker_entity(10, "other", "h")).is_none());
    assert!(reg.get(10).is_some());
    assert_eq!(reg.remove_behaviours(&e).unwrap().entity_id, 10);
    assert!(reg.get(10).is_none());
    reg.add_behaviours(&e);
    assert!(reg.remove_behaviours_by_id(10).is_some());
    assert!(reg.remove_behaviours_by_id(10).is_none());
}

#[test]
fn removed_broker_no_longer_observes() {
    let mut reg = MqttEntityBehaviourProviderImpl::new();
    let e = broker_entity(10, "mqtt_broker", "h");
    reg.add_behaviours(&e);
    let mut send_package = PropertyObservers::new();
    send_package.observe_with_handle(55);
    reg.get(10).unwrap().attach(&mut send_package);
    assert_eq!(send_package.notified(), vec![55, 12]);
    let gone = reg.remove_behaviours(&e).unwrap();
    assert!(gone.detach(&mut send_package));
    assert_eq!(send_package.notified(), vec![55]);
}

#[test]
fn relation_registry_adds_by_type() {
    let mut reg = MqttRelationBehaviourProviderImpl::new();
    let p = edge("mqtt_publishes", endpoint(1), broker_entity(10, "mqtt_broker", "h"), "a");
    let s = edge("mqtt_subscribes", broker_entity(10, "mqtt_broker", "h"), endpoint(1), "a");
    let o = edge("other", endpoint(1), endpoint(3), "a");
    let r = reg.add_behaviours(&p);
    assert!(r.publishes.is_none() && r.subscribes.is_none());
    reg.add_behaviours(&s);
    reg.add_behaviours(&o);
    let r = reg.remove_by_key(&p.get_key());
    assert_eq!(r.publishes.unwrap().topic, "a");
    assert!(r.subscribes.is_none());
    let r = reg.remove_behaviours(&s);
    assert_eq!(r.subscribes.unwrap().handle_id, 2);
    let r = reg.remove_behaviours(&o);
    assert!(r.publishes.is_none() && r.subscribes.is_none());
}

#[test]
fn relation_registry_replaces_same_edge() {
    let mut reg = MqttRelationBehaviourProviderImpl::new();
    reg.add_behaviours(&edge("mqtt_publishes", endpoint(1), broker_entity(10, "mqtt_broker", "h"), "a"));
    let r = reg.add_behaviours(&edge("mqtt_publishes", endpoint(1), broker_entity(10, "mqtt_broker", "h"), "b"));
    assert_eq!(r.publishes.unwrap().topic, "a");
    let key = EdgeKey { outbound_id: 1, type_label: "mqtt_publishes".to_string(), inbound_id: 10 };
    let r = reg.remove_behaviours_by_key(&key);
    assert_eq!(r.publishes.unwrap().topic, "b");
    assert!(reg.remove_behaviours_by_key(&key).publishes.is_none());
}

#[test]
fn relation_registry_skips_endpoint_without_payload() {
    let mut reg = MqttRelationBehaviourProviderImpl::new();
    let mut from = endpoint(1);
    from.properties.clear();
    let p = edge("mqtt_publishes", from, broker_entity(10, "mqtt_broker", "h"), "a");
    assert!(reg.add_behaviours(&p).publishes.is_none());
    assert!(reg.remove_behaviours(&p).publishes.is_none());
}

#[test]
fn removed_subscriber_no_longer_observes() {
    let mut reg = MqttRelationBehaviourProviderImpl::new();
    let s = edge("mqtt_subscribes", broker_entity(10, "mqtt_broker", "h"), endpoint(1), "a");
    reg.add_behaviours(&s);
    let mut received = PropertyObservers::new();
    let gone = reg.remove_behaviours(&s).subscribes.unwrap();
    gone.attach(&mut received);
    assert_eq!(received.notified(), vec![2]);
    assert!(gone.detach(&mut received));
    assert!(received.notified().is_empty());
}

#[test]
fn vocabulary_names_and_defaults() {
    assert_eq!(MqttBrokerProperties::HOSTNAME.as_ref(), "hostname");
    assert_eq!(MqttBrokerProperties::PORT.as_ref(), "port");
    assert_eq!(MqttBrokerProperties::SEND_PACKAGE.as_ref(), "send_package");
    assert_eq!(MqttBrokerProperties::RECEIVED_PACKAGE.as_ref(), "received_package");
    assert_eq!(MqttBrokerProperties::HOSTNAME.default_value(), "localhost");
    assert_eq!(MqttBrokerProperties::PORT.default_value(), "1883");
    assert_eq!(MqttBrokerProperties::SEND_PACKAGE.default_value(), "{}");
    assert_eq!(MqttTopicProperties::TOPIC.default_value(), "");
    assert_eq!(MqttTopicProperties::MODE.default_value(), "json");
    assert_eq!(MqttEndpointProperties::PAYLOAD.as_ref(), "payload");
    assert_eq!(MqttEndpointProperties::PAYLOAD.default_value(), "");
}

#[test]
fn vocabulary_property_lists() {
    let names: Vec<String> = MqttBrokerProperties::properties().into_iter().map(|p| p.name).collect();
    assert_eq!(names, vec!["hostname", "port", "send_package", "received_package"]);
    let topic = MqttTopicProperties::properties();
    assert_eq!(topic.len(), 2);
    assert_eq!(topic[1].value, JsonValue::String("json".to_string()));
    let endpoint = MqttEndpointProperties::properties();
    assert_eq!(endpoint[0].name, "payload");
    assert_eq!(endpoint[0].value, JsonValue::String(String::new()));
}

#[test]
fn plugin_lifecycle() {
    let plugin = MqttPluginImpl::new();
    assert!(plugin.init().is_ok());
    assert!(plugin.post_init().is_ok());
    assert!(plugin.pre_shutdown().is_ok());
    assert!(plugin.shutdown().is_ok());
    assert_eq!(plugin.get_component_behaviour_provider(), Err(PluginError::NoComponentBehaviourProvider));
    assert_eq!(plugin.get_web_resource_provider(), Err(PluginError::NoWebResourceProvider));
    assert!(plugin.entity_behaviour_provider.get(1).is_none());
}
