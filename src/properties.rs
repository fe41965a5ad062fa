//! The property vocabulary: the names of the properties the behaviours read
//! and write, and their defaults.

use crate::json::JsonValue;
use vstd::prelude::*;

verus! {

/// A property name with the value a new instance starts with.
#[derive(Debug, PartialEq)]
pub struct NamedProperty {
    pub name: String,
    pub value: JsonValue,
}

impl NamedProperty {
    /// A property whose initial value is the string `default`.
    pub fn of_default(name: &str, default: String) -> (r: NamedProperty)
        ensures
            r.name@ == name@,
            r.value == JsonValue::String(default),
    {
        NamedProperty { name: name.to_string(), value: JsonValue::String(default) }
    }
}

/// The list of named properties that registers a component's schema.
pub type NamedProperties = Vec<NamedProperty>;

/// Each entry of `props` is named `names[i]` and starts as the string `defaults[i]`.
pub open spec fn lists(props: Seq<NamedProperty>, names: Seq<Seq<char>>, defaults: Seq<Seq<char>>) -> bool {
    &&& props.len() == names.len()
    &&& props.len() == defaults.len()
    &&& forall|i: int|
        0 <= i < props.len() ==> (#[trigger] props[i]).name@ == names[i] && props[i].value.text()
            == Some(defaults[i])
}

/// The properties of an MQTT broker entity.
#[allow(non_camel_case_types)]
#[derive(Copy, Clone, Debug, PartialEq, Eq)]
pub enum MqttBrokerProperties {
    HOSTNAME,
    PORT,
    SEND_PACKAGE,
    RECEIVED_PACKAGE,
}

impl MqttBrokerProperties {
    pub open spec fn name_spec(self) -> Seq<char> {
        match self {
            MqttBrokerProperties::HOSTNAME => "hostname"@,
            MqttBrokerProperties::PORT => "port"@,
            MqttBrokerProperties::SEND_PACKAGE => "send_package"@,
            MqttBrokerProperties::RECEIVED_PACKAGE => "received_package"@,
        }
    }

    pub open spec fn default_spec(self) -> Seq<char> {
        match self {
            MqttBrokerProperties::HOSTNAME => "localhost"@,
            MqttBrokerProperties::PORT => "1883"@,
            MqttBrokerProperties::SEND_PACKAGE => "{}"@,
            MqttBrokerProperties::RECEIVED_PACKAGE => "{}"@,
        }
    }

    /// The property's name.
    pub fn as_ref(&self) -> (r: &'static str)
        ensures
            r@ == self.name_spec(),
    {
        match self {
            MqttBrokerProperties::HOSTNAME => "hostname",
            MqttBrokerProperties::PORT => "port",
            MqttBrokerProperties::SEND_PACKAGE => "send_package",
            MqttBrokerProperties::RECEIVED_PACKAGE => "received_package",
        }
    }

    /// The property's default, as text. The port defaults to 1883, the
    /// standard MQTT port.
    pub fn default_value(&self) -> (r: String)
        ensures
            r@ == self.default_spec(),
    {
        match self {
            MqttBrokerProperties::HOSTNAME => "localhost".to_string(),
            MqttBrokerProperties::PORT => "1883".to_string(),
            MqttBrokerProperties::SEND_PACKAGE => "{}".to_string(),
            MqttBrokerProperties::RECEIVED_PACKAGE => "{}".to_string(),
        }
    }

    /// The broker's properties with their defaults, in declaration order.
    pub fn properties() -> (r: NamedProperties)
        ensures
            lists(
                r@,
                seq![
                    MqttBrokerProperties::HOSTNAME.name_spec(),
                    MqttBrokerProperties::PORT.name_spec(),
                    MqttBrokerProperties::SEND_PACKAGE.name_spec(),
                    MqttBrokerProperties::RECEIVED_PACKAGE.name_spec(),
                ],
                seq![
                    MqttBrokerProperties::HOSTNAME.default_spec(),
                    MqttBrokerProperties::PORT.default_spec(),
                    MqttBrokerProperties::SEND_PACKAGE.default_spec(),
                    MqttBrokerProperties::RECEIVED_PACKAGE.default_spec(),
                ],
            ),
    {
        let mut r: NamedProperties = Vec::new();
        let p = MqttBrokerProperties::HOSTNAME;
        r.push(NamedProperty::of_default(p.as_ref(), p.default_value()));
        let p = MqttBrokerProperties::PORT;
        r.push(NamedProperty::of_default(p.as_ref(), p.default_value()));
        let p = MqttBrokerProperties::SEND_PACKAGE;
        r.push(NamedProperty::of_default(p.as_ref(), p.default_value()));
        let p = MqttBrokerProperties::RECEIVED_PACKAGE;
        r.push(NamedProperty::of_default(p.as_ref(), p.default_value()));
        r
    }
}

/// The properties of an `mqtt_publishes` or `mqtt_subscribes` relation.
#[allow(non_camel_case_types)]
#[derive(Copy, Clone, Debug, PartialEq, Eq)]
pub enum MqttTopicProperties {
    TOPIC,
    MODE,
}

impl MqttTopicProperties {
    pub open spec fn name_spec(self) -> Seq<char> {
        match self {
            MqttTopicProperties::TOPIC => "topic"@,
            MqttTopicProperties::MODE => "mode"@,
        }
    }

    pub open spec fn default_spec(self) -> Seq<char> {
        match self {
            MqttTopicProperties::TOPIC => Seq::empty(),
            MqttTopicProperties::MODE => "json"@,
        }
    }

    /// The property's name.
    pub fn as_ref(&self) -> (r: &'static str)
        ensures
            r@ == self.name_spec(),
    {
        match self {
            MqttTopicProperties::TOPIC => "topic",
            MqttTopicProperties::MODE => "mode",
        }
    }

    /// The property's default, as text.
    pub fn default_value(&self) -> (r: String)
        ensures
            r@ == self.default_spec(),
    {
        match self {
            MqttTopicProperties::TOPIC => String::new(),
            MqttTopicProperties::MODE => "json".to_string(),
        }
    }

    /// The relation's properties with their defaults, in declaration order.
    pub fn properties() -> (r: NamedProperties)
        ensures
            lists(
                r@,
                seq![MqttTopicProperties::TOPIC.name_spec(), MqttTopicProperties::MODE.name_spec()],
                seq![
                    MqttTopicProperties::TOPIC.default_spec(),
                    MqttTopicProperties::MODE.default_spec(),
                ],
            ),
    {
        let mut r: NamedProperties = Vec::new();
        let p = MqttTopicProperties::TOPIC;
        r.push(NamedProperty::of_default(p.as_ref(), p.default_value()));
        let p = MqttTopicProperties::MODE;
        r.push(NamedProperty::of_default(p.as_ref(), p.default_value()));
        r
    }
}

/// The property of an endpoint entity that publishers read and subscribers write.
#[allow(non_camel_case_types)]
#[derive(Copy, Clone, Debug, PartialEq, Eq)]
pub enum MqttEndpointProperties {
    PAYLOAD,
}

impl MqttEndpointProperties {
    pub open spec fn name_spec(self) -> Seq<char> {
        "payload"@
    }

    pub open spec fn default_spec(self) -> Seq<char> {
        Seq::empty()
    }

    /// The property's name.
    pub fn as_ref(&self) -> (r: &'static str)
        ensures
            r@ == self.name_spec(),
    {
        "payload"
    }

    /// The property's default, as text.
    pub fn default_value(&self) -> (r: String)
        ensures
            r@ == self.default_spec(),
    {
        String::new()
    }

    /// The endpoint's properties with their defaults.
    pub fn properties() -> (r: NamedProperties)
        ensures
            lists(
                r@,
                seq![MqttEndpointProperties::PAYLOAD.name_spec()],
                seq![MqttEndpointProperties::PAYLOAD.default_spec()],
            ),
    {
        let mut r: NamedProperties = Vec::new();
        let p = MqttEndpointProperties::PAYLOAD;
        r.push(NamedProperty::of_default(p.as_ref(), p.default_value()));
        r
    }
}

} // verus!
