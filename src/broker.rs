//! The broker behaviour: one per `mqtt_broker` entity. It decides what the
//! network client is opened with, what each write to `send_package` publishes,
//! what each inbound message writes to `received_package`, and how the event
//! loop paces itself; the caller runs the client and the loop.

use crate::codec::{decode_payload, decoded, encode_payload, encoded, MqttPayloadMode};
use crate::json::JsonValue;
use crate::model::{as_i64, as_string, integer_property, string_property, EntityInstance};
use crate::properties::{MqttBrokerProperties, MqttEndpointProperties, MqttTopicProperties};
use crate::reactive::{ObserverKey, ObserverKeyView, PropertyObservers};
use vstd::prelude::*;
use vstd::string::*;

verus! {

/// Hex digit `k` (0 to 31, most significant first) of a 128-bit identifier.
pub open spec fn hex_digit_of(id: u128, k: int) -> char {
    "0123456789abcdef"@[((id >> (((31 - k) * 4) as u128)) & 15u128) as int]
}

/// The hyphenated lower-case text of a 128-bit identifier: its 32 hex digits,
/// most significant first, in groups of 8, 4, 4, 4 and 12 joined by hyphens.
pub open spec fn uuid_text(id: u128) -> Seq<char> {
    Seq::new(
        36,
        |i: int|
            if i == 8 || i == 13 || i == 18 || i == 23 {
                '-'
            } else if i < 8 {
                hex_digit_of(id, i)
            } else if i < 13 {
                hex_digit_of(id, i - 1)
            } else if i < 18 {
                hex_digit_of(id, i - 2)
            } else if i < 23 {
                hex_digit_of(id, i - 3)
            } else {
                hex_digit_of(id, i - 4)
            },
    )
}

/// The text that `String::from_utf8_lossy` reads from bytes.
pub uninterp spec fn utf8_lossy(bytes: Seq<u8>) -> Seq<char>;

/// Relies on uuid's `Display` for `Uuid` (built with `Uuid::from_u128`, which
/// keeps the integer's bytes most significant first): the hyphenated form in
/// lower-case hex.
#[verifier::external_body]
fn hyphenated_uuid(id: u128) -> (r: String)
    ensures
        r@ == uuid_text(id),
{
    uuid::Uuid::from_u128(id).to_string()
}

/// Relies on `String::from_utf8_lossy`: the bytes as UTF-8, each invalid
/// sequence replaced by U+FFFD.
#[verifier::external_body]
fn lossy_text(bytes: &Vec<u8>) -> (r: String)
    ensures
        r@ == utf8_lossy(bytes@),
{
    String::from_utf8_lossy(bytes.as_slice()).into_owned()
}

/// Capacity of the client's outbound request queue.
pub const OUTBOUND_QUEUE_CAPACITY: usize = 10;

/// Pause of the event loop after a connection error, in milliseconds.
pub const RECONNECT_BACKOFF_MS: u64 = 2000;

/// Pause of the event loop between polls of the stop signal, in milliseconds.
pub const POLL_INTERVAL_MS: u64 = 100;

/// The port used when the entity has none.
pub const DEFAULT_PORT: u16 = 1883;

/// A broker behaviour could not be built: the entity lacks `send_package` or
/// `received_package`.
#[derive(Debug, PartialEq, Eq)]
pub struct BehaviourCreationError;

/// MQTT delivery guarantee.
#[derive(Copy, Clone, Debug, PartialEq, Eq)]
pub enum MqttQos {
    AtMostOnce,
    AtLeastOnce,
    ExactlyOnce,
}

/// A publish to hand to the client.
#[derive(Debug, PartialEq)]
pub struct PublishRequest {
    pub topic: String,
    pub qos: MqttQos,
    pub retain: bool,
    pub payload: String,
}

/// A subscription to make once the client is open.
#[derive(Debug, PartialEq)]
pub struct Subscription {
    pub topic_filter: String,
    pub qos: MqttQos,
}

/// What a behaviour leaves to be undone when it goes: the observer to remove,
/// and whether an event loop is to be told to stop.
#[derive(Debug, PartialEq)]
pub struct Teardown {
    pub stop_event_loop: bool,
    pub observer: ObserverKey,
}

/// One event from the client's connection.
pub enum ConnectionEvent {
    /// A message arrived on `topic`.
    Publish { topic: String, payload: Vec<u8> },
    /// Any other packet arrived.
    OtherIncoming,
    /// A packet was sent.
    Outgoing,
    /// The connection failed with an I/O error.
    IoError,
    /// The connection failed otherwise.
    OtherError,
}

/// What the event loop does with one event.
pub struct EventOutcome {
    /// The value to write to `received_package`, if any.
    pub received_package: Option<JsonValue>,
    /// Whether to report a connection failure.
    pub report_error: bool,
    /// How long to pause before going on, in milliseconds.
    pub backoff_ms: u64,
}

/// What the event loop does after an event, once it has polled the stop signal.
#[derive(Copy, Clone, Debug, PartialEq, Eq)]
pub enum PollOutcome {
    /// Leave the loop and disconnect the client.
    Stop,
    /// Pause for the given milliseconds, then take the next event.
    Pause(u64),
}

/// The topic and the message text that a `send_package` value asks to
/// publish: its `topic`, and its `payload` encoded under its `mode`. Nothing
/// where a field is missing or `topic` or `mode` is not a string.
pub open spec fn publish_for(v: JsonValue) -> Option<(Seq<char>, Seq<char>)> {
    match (v.field("topic"@), v.field("mode"@), v.field("payload"@)) {
        (Some(t), Some(m), Some(p)) => match (t.text(), m.text()) {
            (Some(topic), Some(mode)) => Some((topic, encoded(MqttPayloadMode::named(mode), p))),
            _ => None,
        },
        _ => None,
    }
}

/// `r` is the package an inbound message writes to `received_package`:
/// `{payload, topic}`, the payload read from `text` as JSON where it parses and
/// as a string where it does not. No `mode` is set on the inbound side.
pub open spec fn inbound_package(r: JsonValue, topic: String, text: Seq<char>) -> bool {
    match r {
        JsonValue::Object(entries) => {
            &&& entries@.len() == 2
            &&& entries@[0].0@ == "payload"@
            &&& decoded(MqttPayloadMode::Json, text, entries@[0].1)
            &&& entries@[1].0@ == "topic"@
            &&& entries@[1].1 == JsonValue::String(topic)
        },
        _ => false,
    }
}

/// The broker behaviour of one `mqtt_broker` entity.
#[derive(Debug, PartialEq)]
pub struct MqttBroker {
    pub entity_id: u128,
    pub entity_type: String,
    /// The identifier of the entity's `send_package` property, which keys the
    /// observer installed on it.
    pub handle_id: u128,
    pub hostname: String,
    pub port: u16,
    pub client_id: String,
}

impl MqttBroker {
    /// The port a broker entity names, or 1883; the value is cut to 16 bits.
    pub open spec fn port_of(e: EntityInstance) -> u16 {
        match integer_property(e.properties@, "port"@) {
            Some(p) => p as u16,
            None => DEFAULT_PORT,
        }
    }

    /// The host a broker entity names, or `localhost`.
    pub open spec fn hostname_of(e: EntityInstance) -> Seq<char> {
        match string_property(e.properties@, "hostname"@) {
            Some(h) => h,
            None => "localhost"@,
        }
    }

    /// A broker behaviour can be built for `e`: it has both packages.
    pub open spec fn buildable(e: EntityInstance) -> bool {
        e.property("send_package"@) is Some && e.property("received_package"@) is Some
    }

    /// `b` is the behaviour built for `e`.
    pub open spec fn built_from(b: MqttBroker, e: EntityInstance) -> bool {
        &&& b.entity_id == e.id
        &&& b.entity_type@ == e.type_label@
        &&& b.handle_id == e.property("send_package"@).unwrap().id
        &&& b.hostname@ == Self::hostname_of(e)
        &&& b.port == Self::port_of(e)
        &&& b.client_id@ == "inexor-"@ + uuid_text(e.id)
    }

    /// Builds the behaviour of a broker entity. It fails exactly when the
    /// entity lacks `send_package` or `received_package`.
    pub fn new(e: &EntityInstance) -> (r: Result<MqttBroker, BehaviourCreationError>)
        ensures
            r is Err <==> !Self::buildable(*e),
            r matches Ok(b) ==> Self::built_from(b, *e),
    {
        let send_package = match e.get(MqttBrokerProperties::SEND_PACKAGE.as_ref()) {
            Some(p) => p,
            None => return Err(BehaviourCreationError),
        };
        if e.get(MqttBrokerProperties::RECEIVED_PACKAGE.as_ref()).is_none() {
            return Err(BehaviourCreationError);
        }
        let handle_id = send_package.id;
        let hostname = match as_string(&e.properties, MqttBrokerProperties::HOSTNAME.as_ref()) {
            Some(h) => h,
            None => MqttBrokerProperties::HOSTNAME.default_value(),
        };
        let port = match as_i64(&e.properties, MqttBrokerProperties::PORT.as_ref()) {
            Some(p) => p as u16,
            None => DEFAULT_PORT,
        };
        let mut client_id = "inexor-".to_string();
        let uuid = hyphenated_uuid(e.id);
        client_id.append(uuid.as_str());
        Ok(MqttBroker {
            entity_id: e.id,
            entity_type: e.type_label.clone(),
            handle_id,
            hostname,
            port,
            client_id,
        })
    }

    /// The type of the broker's entity.
    pub fn type_label(&self) -> (r: String)
        ensures
            r@ == self.entity_type@,
    {
        self.entity_type.clone()
    }

    /// The subscription the client makes once open: every topic, at most once,
    /// so that each inbound message reaches the broker whoever subscribes to it.
    pub fn subscription(&self) -> (r: Subscription)
        ensures
            r.topic_filter@ == "#"@,
            r.qos == MqttQos::AtMostOnce,
    {
        Subscription { topic_filter: "#".to_string(), qos: MqttQos::AtMostOnce }
    }

    /// The observer the broker installs on its entity's `send_package`.
    pub open spec fn observer_spec(&self) -> (ObserverKeyView) {
        (self.entity_id, "send_package"@, self.handle_id)
    }

    /// Where the broker's observer sits.
    pub fn observer(&self) -> (r: ObserverKey)
        ensures
            r@ == self.observer_spec(),
    {
        ObserverKey {
            entity_id: self.entity_id,
            property: MqttBrokerProperties::SEND_PACKAGE.as_ref().to_string(),
            handle_id: self.handle_id,
        }
    }

    /// What one write `v` to `send_package` publishes: the topic and text of
    /// `publish_for(v)`, at least once, not retained; nothing where `v` does not
    /// have the shape of a package (the write is dropped).
    pub fn on_send_package(&self, v: &JsonValue) -> (r: Option<PublishRequest>)
        ensures
            match r {
                Some(req) => {
                    &&& publish_for(*v) == Some((req.topic@, req.payload@))
                    &&& req.qos == MqttQos::AtLeastOnce
                    &&& !req.retain
                },
                None => publish_for(*v) is None,
            },
    {
        let topic = match v.get(MqttTopicProperties::TOPIC.as_ref()) {
            Some(t) => t,
            None => return None,
        };
        let mode = match v.get(MqttTopicProperties::MODE.as_ref()) {
            Some(m) => m,
            None => return None,
        };
        let payload = match v.get(MqttEndpointProperties::PAYLOAD.as_ref()) {
            Some(p) => p,
            None => return None,
        };
        let topic = match topic.as_str() {
            Some(t) => t,
            None => return None,
        };
        let mode = match mode.as_str() {
            Some(m) => MqttPayloadMode::from(m),
            None => return None,
        };
        let text = encode_payload(mode, payload);
        Some(PublishRequest {
            topic: topic.to_string(),
            qos: MqttQos::AtLeastOnce,
            retain: false,
            payload: text,
        })
    }

    /// The package an inbound message on `topic` with `payload` writes to
    /// `received_package`.
    pub fn on_incoming(topic: String, payload: &Vec<u8>) -> (r: JsonValue)
        ensures
            inbound_package(r, topic, utf8_lossy(payload@)),
    {
        let text = lossy_text(payload);
        let value = decode_payload(MqttPayloadMode::Json, text);
        let mut entries: Vec<(String, JsonValue)> = Vec::new();
        entries.push((MqttEndpointProperties::PAYLOAD.as_ref().to_string(), value));
        entries.push((MqttTopicProperties::TOPIC.as_ref().to_string(), JsonValue::String(topic)));
        JsonValue::Object(entries)
    }

    /// What the event loop does with one event: an inbound message becomes a
    /// write to `received_package`; a connection error pauses the loop for two
    /// seconds (and an I/O error is reported); anything else is passed over.
    pub fn on_event(event: ConnectionEvent) -> (r: EventOutcome)
        ensures
            match event {
                ConnectionEvent::Publish { topic, payload } => r.received_package matches Some(p)
                    && inbound_package(p, topic, utf8_lossy(payload@)) && !r.report_error
                    && r.backoff_ms == 0,
                ConnectionEvent::IoError => r.received_package is None && r.report_error
                    && r.backoff_ms == RECONNECT_BACKOFF_MS,
                ConnectionEvent::OtherError => r.received_package is None && !r.report_error
                    && r.backoff_ms == RECONNECT_BACKOFF_MS,
                _ => r.received_package is None && !r.report_error && r.backoff_ms == 0,
            },
    {
        match event {
            ConnectionEvent::Publish { topic, payload } => EventOutcome {
                received_package: Some(Self::on_incoming(topic, &payload)),
                report_error: false,
                backoff_ms: 0,
            },
            ConnectionEvent::IoError => EventOutcome {
                received_package: None,
                report_error: true,
                backoff_ms: RECONNECT_BACKOFF_MS,
            },
            ConnectionEvent::OtherError => EventOutcome {
                received_package: None,
                report_error: false,
                backoff_ms: RECONNECT_BACKOFF_MS,
            },
            _ => EventOutcome { received_package: None, report_error: false, backoff_ms: 0 },
        }
    }

    /// After each event the loop polls its stop signal: on a signal it stops
    /// (and disconnects), otherwise it pauses one poll interval.
    pub fn after_event(stop_signalled: bool) -> (r: PollOutcome)
        ensures
            stop_signalled ==> r == PollOutcome::Stop,
            !stop_signalled ==> r == PollOutcome::Pause(POLL_INTERVAL_MS),
    {
        if stop_signalled {
            PollOutcome::Stop
        } else {
            PollOutcome::Pause(POLL_INTERVAL_MS)
        }
    }

    /// Installs the behaviour's observer on the stream it belongs to (see
    /// `observer`); an observer under the same handle is replaced.
    pub fn attach(&self, stream: &mut PropertyObservers)
        requires
            old(stream).well_formed(),
        ensures
            final(stream).well_formed(),
            final(stream)@.contains(self.handle_id),
            forall|h: u128| h != self.handle_id ==> (final(stream)@.contains(h) <==> old(stream)@.contains(h)),
    {
        stream.observe_with_handle(self.handle_id);
    }

    /// Teardown against the stream the observer sits on: removes it by its
    /// handle, so no later write to the stream reaches it. Other observers stay.
    pub fn detach(&self, stream: &mut PropertyObservers) -> (r: bool)
        requires
            old(stream).well_formed(),
        ensures
            r == old(stream)@.contains(self.handle_id),
            final(stream).well_formed(),
            !final(stream)@.contains(self.handle_id),
            forall|h: u128| h != self.handle_id ==> (final(stream)@.contains(h) <==> old(stream)@.contains(h)),
    {
        stream.remove(self.handle_id)
    }

    /// Teardown of the broker: stop its event loop and remove its observer from
    /// `send_package`.
    pub fn disconnect(&self) -> (r: Teardown)
        ensures
            r.stop_event_loop,
            r.observer@
                == self.observer_spec(),
    {
        Teardown { stop_event_loop: true, observer: self.observer() }
    }
}

} // verus!
