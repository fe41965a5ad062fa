//! The relation behaviours: `mqtt_publishes` forwards what its endpoint's
//! `payload` receives to the broker's `send_package`, and `mqtt_subscribes`
//! forwards the broker's `received_package` to its endpoint's `payload` when the
//! topic matches.

use crate::broker::{inbound_package, publish_for, MqttBroker, MqttQos, PublishRequest};
use crate::codec::{decoded, encoded, MqttPayloadMode};
use crate::json::{text_equals, JsonValue};
use crate::model::{as_string, string_property, EdgeKey, RelationInstance};
use crate::properties::{MqttBrokerProperties, MqttEndpointProperties, MqttTopicProperties};
use crate::reactive::{ObserverKey, ObserverKeyView, PropertyObservers};
use vstd::prelude::*;

verus! {

/// The topic a relation names, or the empty topic.
pub open spec fn topic_of(r: RelationInstance) -> Seq<char> {
    match string_property(r.properties@, "topic"@) {
        Some(t) => t,
        None => Seq::empty(),
    }
}

/// The mode name a relation gives, or `json`.
pub open spec fn mode_of(r: RelationInstance) -> Seq<char> {
    match string_property(r.properties@, "mode"@) {
        Some(m) => m,
        None => "json"@,
    }
}

/// Reads the topic and mode of a relation, with their defaults.
fn topic_and_mode(r: &RelationInstance) -> (res: (String, String))
    ensures
        res.0@ == topic_of(*r),
        res.1@ == mode_of(*r),
{
    let topic = match as_string(&r.properties, MqttTopicProperties::TOPIC.as_ref()) {
        Some(t) => t,
        None => MqttTopicProperties::TOPIC.default_value(),
    };
    let mode = match as_string(&r.properties, MqttTopicProperties::MODE.as_ref()) {
        Some(m) => m,
        None => MqttTopicProperties::MODE.default_value(),
    };
    (topic, mode)
}

/// The behaviour of one `mqtt_publishes` edge, from a publishing endpoint to a
/// broker. Topic and mode are read once, when the behaviour is built.
#[derive(Debug, PartialEq)]
pub struct MqttPublishes {
    pub relation: EdgeKey,
    /// The identifier of the endpoint's `payload` property, which keys the
    /// observer installed on it.
    pub handle_id: u128,
    pub topic: String,
    pub mode: String,
}

/// `r` is the package `{mode, payload, topic}` for a payload `v`.
pub open spec fn outbound_package(r: JsonValue, topic: String, mode: String, v: JsonValue) -> bool {
    match r {
        JsonValue::Object(entries) => {
            &&& entries@.len() == 3
            &&& entries@[0].0@ == "mode"@
            &&& entries@[0].1 == JsonValue::String(mode)
            &&& entries@[1].0@ == "payload"@
            &&& entries@[1].1 == v
            &&& entries@[2].0@ == "topic"@
            &&& entries@[2].1 == JsonValue::String(topic)
        },
        _ => false,
    }
}

impl MqttPublishes {
    /// The behaviour can be built for `r`: its outbound endpoint has a `payload`.
    pub open spec fn buildable(r: RelationInstance) -> bool {
        r.outbound.property("payload"@) is Some
    }

    /// `b` is the behaviour built for `r`.
    pub open spec fn built_from(b: MqttPublishes, r: RelationInstance) -> bool {
        &&& b.relation == r.key_spec()
        &&& b.handle_id == r.outbound.property("payload"@).unwrap().id
        &&& b.topic@ == topic_of(r)
        &&& b.mode@ == mode_of(r)
    }

    /// Builds the behaviour of a publishes edge whose source has a `payload` property.
    pub fn new(r: &RelationInstance) -> (b: MqttPublishes)
        requires
            Self::buildable(*r),
        ensures
            Self::built_from(b, *r),
    {
        let (topic, mode) = topic_and_mode(r);
        let handle_id = match r.outbound.get(MqttEndpointProperties::PAYLOAD.as_ref()) {
            Some(p) => p.id,
            None => 0,
        };
        MqttPublishes { relation: r.get_key(), handle_id, topic, mode }
    }

    /// The type of the edge.
    pub fn type_label(&self) -> (r: String)
        ensures
            r@ == self.relation.type_label@,
    {
        self.relation.type_label.clone()
    }

    /// Where the observer sits: on the source endpoint's `payload`.
    pub open spec fn observer_spec(&self) -> ObserverKeyView {
        (self.relation.outbound_id, "payload"@, self.handle_id)
    }

    /// Where the observer sits.
    pub fn observer(&self) -> (r: ObserverKey)
        ensures
            r@ == self.observer_spec(),
    {
        ObserverKey {
            entity_id: self.relation.outbound_id,
            property: MqttEndpointProperties::PAYLOAD.as_ref().to_string(),
            handle_id: self.handle_id,
        }
    }

    /// Where the packages go: the broker's `send_package`.
    pub fn target(&self) -> (r: (u128, &'static str))
        ensures
            r.0 == self.relation.inbound_id,
            r.1@ == "send_package"@,
    {
        (self.relation.inbound_id, MqttBrokerProperties::SEND_PACKAGE.as_ref())
    }

    /// The package a payload `v` written to the endpoint becomes:
    /// `{mode, payload: v, topic}`, with the topic and mode read at construction.
    pub fn on_payload(&self, v: JsonValue) -> (r: JsonValue)
        ensures
            outbound_package(r, self.topic, self.mode, v),
    {
        let mut entries: Vec<(String, JsonValue)> = Vec::new();
        entries.push((MqttTopicProperties::MODE.as_ref().to_string(), JsonValue::String(self.mode.clone())));
        entries.push((MqttEndpointProperties::PAYLOAD.as_ref().to_string(), v));
        entries.push((MqttTopicProperties::TOPIC.as_ref().to_string(), JsonValue::String(self.topic.clone())));
        JsonValue::Object(entries)
    }

    /// Installs the behaviour's observer on the stream it belongs to (see
    /// `observer`); an observer under the same handle is replaced.
    pub fn attach(&self, stream: &mut PropertyObservers)
        requires
            old(stream).well_formed(),
        ensures
            final(stream).well_formed(),
            final(stream)@.contains(self.handle_id),
            forall|h: u128| h != self.handle_id ==> (final(stream)@.contains(h) <==> old(stream)@.contains(h)),
    {
        stream.observe_with_handle(self.handle_id);
    }

    /// Teardown against the stream the observer sits on: removes it by its
    /// handle, so no later write to the stream reaches it. Other observers stay.
    pub fn detach(&self, stream: &mut PropertyObservers) -> (r: bool)
        requires
            old(stream).well_formed(),
        ensures
            r == old(stream)@.contains(self.handle_id),
            final(stream).well_formed(),
            !final(stream)@.contains(self.handle_id),
            forall|h: u128| h != self.handle_id ==> (final(stream)@.contains(h) <==> old(stream)@.contains(h)),
    {
        stream.remove(self.handle_id)
    }

    /// Teardown: the observer to remove from the source endpoint's `payload`.
    pub fn disconnect(&self) -> (r: ObserverKey)
        ensures
            r@ == self.observer_spec(),
    {
        self.observer()
    }

    /// Carries payloads written to the endpoint, in order, through this edge
    /// and `broker`: one publish each, in the same order, on the edge's topic
    /// with the payload encoded under the edge's mode.
    pub fn publish_all(&self, broker: &MqttBroker, payloads: Vec<JsonValue>) -> (r: Vec<PublishRequest>)
        ensures
            r@.len() == payloads@.len(),
            forall|i: int|
                0 <= i < r@.len() ==> {
                    &&& (#[trigger] r@[i]).topic@ == self.topic@
                    &&& r@[i].payload@ == encoded(MqttPayloadMode::named(self.mode@), payloads@[i])
                    &&& r@[i].qos == MqttQos::AtLeastOnce
                    &&& !r@[i].retain
                },
    {
        let mut r: Vec<PublishRequest> = Vec::new();
        let mut rest = payloads;
        let ghost all = rest@;
        let ghost mode = MqttPayloadMode::named(self.mode@);
        while rest.len() > 0
            invariant
                mode == MqttPayloadMode::named(self.mode@),
                r@.len() + rest@.len() == all.len(),
                rest@ == all.subrange(r@.len() as int, all.len() as int),
                forall|i: int|
                    0 <= i < r@.len() ==> {
                        &&& (#[trigger] r@[i]).topic@ == self.topic@
                        &&& r@[i].payload@ == encoded(mode, all[i])
                        &&& r@[i].qos == MqttQos::AtLeastOnce
                        &&& !r@[i].retain
                    },
            decreases rest@.len(),
        {
            let ghost before = rest@;
            let ghost n = r@.len();
            let v = rest.remove(0);
            assert(v == all[n as int]);
            let package = self.on_payload(v);
            proof {
                law_published_once(package, self.topic, self.mode, v);
            }
            match broker.on_send_package(&package) {
                Some(req) => {
                    let ghost prev = r@;
                    r.push(req);
                    assert forall|i: int| 0 <= i < r@.len() implies {
                        &&& (#[trigger] r@[i]).topic@ == self.topic@
                        &&& r@[i].payload@ == encoded(mode, all[i])
                        &&& r@[i].qos == MqttQos::AtLeastOnce
                        &&& !r@[i].retain
                    } by {
                        if i < n {
                            assert(r@[i] == prev[i]);
                        }
                    }
                },
                None => {
                    assert(false);
                },
            }
            assert(rest@ =~= all.subrange(r@.len() as int, all.len() as int));
        }
        r
    }
}

/// A package built by a publishes edge always has the shape the broker
/// publishes: each payload written to the endpoint gives exactly one publish,
/// on the edge's topic, with the payload encoded under the edge's mode.
pub proof fn law_published_once(r: JsonValue, topic: String, mode: String, v: JsonValue)
    requires
        outbound_package(r, topic, mode, v),
    ensures
        publish_for(r) == Some((topic@, encoded(MqttPayloadMode::named(mode@), v))),
{
    reveal_with_fuel(crate::json::member, 4);
    let entries = r->Object_0@;
    reveal_strlit("mode");
    reveal_strlit("payload");
    reveal_strlit("topic");
    assert("mode"@.len() == 4 && "payload"@.len() == 7 && "topic"@.len() == 5);
    assert(entries.drop_first()[0] == entries[1]);
    assert(entries.drop_first().drop_first()[0] == entries[2]);
}

/// The behaviour of one `mqtt_subscribes` edge, from a broker to a subscribing
/// endpoint. Topic and mode are read once, when the behaviour is built.
#[derive(Debug, PartialEq)]
pub struct MqttSubscribes {
    pub relation: EdgeKey,
    /// The identifier of the endpoint's `payload` property, which keys the
    /// observer installed on the broker's `received_package`.
    pub handle_id: u128,
    pub topic: String,
    pub mode: String,
}

/// The payload that a package on `received_package` delivers to an edge
/// subscribed to `topic`: the package's `payload` where its `topic` is a
/// string equal to `topic` (no wildcards); nothing otherwise.
pub open spec fn delivers(topic: Seq<char>, pkg: JsonValue) -> Option<JsonValue> {
    match pkg.field("topic"@) {
        Some(t) => if t.text() == Some(topic) {
            pkg.field("payload"@)
        } else {
            None
        },
        None => None,
    }
}

impl MqttSubscribes {
    /// The behaviour can be built for `r`: its inbound endpoint has a `payload`.
    pub open spec fn buildable(r: RelationInstance) -> bool {
        r.inbound.property("payload"@) is Some
    }

    /// `b` is the behaviour built for `r`.
    pub open spec fn built_from(b: MqttSubscribes, r: RelationInstance) -> bool {
        &&& b.relation == r.key_spec()
        &&& b.handle_id == r.inbound.property("payload"@).unwrap().id
        &&& b.topic@ == topic_of(r)
        &&& b.mode@ == mode_of(r)
    }

    /// Builds the behaviour of a subscribes edge whose target has a `payload` property.
    pub fn new(r: &RelationInstance) -> (b: MqttSubscribes)
        requires
            Self::buildable(*r),
        ensures
            Self::built_from(b, *r),
    {
        let (topic, mode) = topic_and_mode(r);
        let handle_id = match r.inbound.get(MqttEndpointProperties::PAYLOAD.as_ref()) {
            Some(p) => p.id,
            None => 0,
        };
        MqttSubscribes { relation: r.get_key(), handle_id, topic, mode }
    }

    /// The type of the edge.
    pub fn type_label(&self) -> (r: String)
        ensures
            r@ == self.relation.type_label@,
    {
        self.relation.type_label.clone()
    }

    /// Where the observer sits: on the broker's `received_package`.
    pub open spec fn observer_spec(&self) -> ObserverKeyView {
        (self.relation.outbound_id, "received_package"@, self.handle_id)
    }

    /// Where the observer sits.
    pub fn observer(&self) -> (r: ObserverKey)
        ensures
            r@ == self.observer_spec(),
    {
        ObserverKey {
            entity_id: self.relation.outbound_id,
            property: MqttBrokerProperties::RECEIVED_PACKAGE.as_ref().to_string(),
            handle_id: self.handle_id,
        }
    }

    /// Where delivered payloads go: the endpoint's `payload`.
    pub fn target(&self) -> (r: (u128, &'static str))
        ensures
            r.0 == self.relation.inbound_id,
            r.1@ == "payload"@,
    {
        (self.relation.inbound_id, MqttEndpointProperties::PAYLOAD.as_ref())
    }

    /// What one package on the broker's `received_package` writes to the
    /// endpoint's `payload`, if anything.
    pub fn on_received<'a>(&self, pkg: &'a JsonValue) -> (r: Option<&'a JsonValue>)
        ensures
            match r {
                Some(p) => delivers(self.topic@, *pkg) == Some(*p),
                None => delivers(self.topic@, *pkg) is None,
            },
    {
        let received_topic = match pkg.get(MqttTopicProperties::TOPIC.as_ref()) {
            Some(t) => t,
            None => return None,
        };
        match received_topic.as_str() {
            Some(t) => {
                if !text_equals(t, self.topic.as_str()) {
                    return None;
                }
            },
            None => return None,
        }
        pkg.get(MqttEndpointProperties::PAYLOAD.as_ref())
    }

    /// Installs the behaviour's observer on the stream it belongs to (see
    /// `observer`); an observer under the same handle is replaced.
    pub fn attach(&self, stream: &mut PropertyObservers)
        requires
            old(stream).well_formed(),
        ensures
            final(stream).well_formed(),
            final(stream)@.contains(self.handle_id),
            forall|h: u128| h != self.handle_id ==> (final(stream)@.contains(h) <==> old(stream)@.contains(h)),
    {
        stream.observe_with_handle(self.handle_id);
    }

    /// Teardown against the stream the observer sits on: removes it by its
    /// handle, so no later write to the stream reaches it. Other observers stay.
    pub fn detach(&self, stream: &mut PropertyObservers) -> (r: bool)
        requires
            old(stream).well_formed(),
        ensures
            r == old(stream)@.contains(self.handle_id),
            final(stream).well_formed(),
            !final(stream)@.contains(self.handle_id),
            forall|h: u128| h != self.handle_id ==> (final(stream)@.contains(h) <==> old(stream)@.contains(h)),
    {
        stream.remove(self.handle_id)
    }

    /// Teardown: the observer to remove from the broker's `received_package`.
    pub fn disconnect(&self) -> (r: ObserverKey)
        ensures
            r@ == self.observer_spec(),
    {
        self.observer()
    }
}

/// A package with a payload reaches an edge subscribed to `topic` exactly when
/// its `topic` field is the string `topic`.
pub proof fn law_topic_filter(topic: Seq<char>, pkg: JsonValue)
    requires
        pkg.field("payload"@) is Some,
    ensures
        delivers(topic, pkg) is Some <==> (pkg.field("topic"@) matches Some(t) && t.text() == Some(
            topic,
        )),
{
}

/// An inbound message on `topic` reaches an edge subscribed to `subscribed`
/// exactly when the two topics are equal, and then delivers the payload the
/// message text decodes to.
pub proof fn law_inbound_delivery(pkg: JsonValue, topic: String, text: Seq<char>, subscribed: Seq<char>)
    requires
        inbound_package(pkg, topic, text),
    ensures
        delivers(subscribed, pkg) is Some <==> topic@ == subscribed,
        delivers(subscribed, pkg) matches Some(p) ==> decoded(MqttPayloadMode::Json, text, p),
{
    reveal_with_fuel(crate::json::member, 3);
    let entries = pkg->Object_0@;
    reveal_strlit("payload");
    reveal_strlit("topic");
    assert("payload"@.len() == 7 && "topic"@.len() == 5);
    assert(entries.drop_first()[0] == entries[1]);
}

} // verus!
