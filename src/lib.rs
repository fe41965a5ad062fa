//! Verified core of an MQTT bridge for a reactive property graph: the payload
//! codec, the property vocabulary, the broker and relation behaviours, and the
//! registries that own them.

pub mod broker;
pub mod codec;
pub mod json;
pub mod model;
pub mod plugin;
pub mod properties;
pub mod provider;
pub mod reactive;
pub mod relation;
