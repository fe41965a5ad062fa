//! The plugin as the host sees it: its providers and its lifecycle.

use crate::provider::{MqttEntityBehaviourProviderImpl, MqttRelationBehaviourProviderImpl};
use vstd::prelude::*;

verus! {

/// Why the plugin cannot hand out what the host asked for.
#[derive(Copy, Clone, Debug, PartialEq, Eq)]
pub enum PluginError {
    PluginCreationError,
    NoComponentProvider,
    NoEntityTypeProvider,
    NoRelationTypeProvider,
    NoComponentBehaviourProvider,
    NoEntityBehaviourProvider,
    NoRelationBehaviourProvider,
    NoFlowProvider,
    NoWebResourceProvider,
}

/// Supplies the component types of the plugin.
pub trait MqttComponentProvider {
}

/// Supplies the relation types of the plugin.
pub trait MqttRelationTypeProvider {
}

/// Supplies the flows of the plugin.
pub trait MqttFlowProvider {
}

/// The component type catalog of the plugin.
pub struct MqttComponentProviderImpl {}

impl MqttComponentProviderImpl {
    pub fn new() -> (r: Self) {
        MqttComponentProviderImpl {  }
    }
}

impl MqttComponentProvider for MqttComponentProviderImpl {

}

/// The relation type catalog of the plugin.
pub struct MqttRelationTypeProviderImpl {}

impl MqttRelationTypeProviderImpl {
    pub fn new() -> (r: Self) {
        MqttRelationTypeProviderImpl {  }
    }
}

impl MqttRelationTypeProvider for MqttRelationTypeProviderImpl {

}

/// The flow catalog of the plugin.
pub struct MqttFlowProviderImpl {}

impl MqttFlowProviderImpl {
    pub fn new() -> (r: Self) {
        MqttFlowProviderImpl {  }
    }
}

impl MqttFlowProvider for MqttFlowProviderImpl {

}

/// The plugin: its catalogs and its two behaviour registries.
pub struct MqttPluginImpl {
    pub component_provider: MqttComponentProviderImpl,
    pub relation_type_provider: MqttRelationTypeProviderImpl,
    pub flow_provider: MqttFlowProviderImpl,
    pub entity_behaviour_provider: MqttEntityBehaviourProviderImpl,
    pub relation_behaviour_provider: MqttRelationBehaviourProviderImpl,
}

impl MqttPluginImpl {
    /// The plugin with empty registries.
    pub fn new() -> (r: MqttPluginImpl)
        ensures
            r.entity_behaviour_provider@ == Map::<u128, crate::broker::MqttBroker>::empty(),
            r.relation_behaviour_provider.well_formed(),
            r.relation_behaviour_provider.publishes().is_empty(),
            r.relation_behaviour_provider.subscribes().is_empty(),
    {
        let relation_behaviour_provider = MqttRelationBehaviourProviderImpl::new();
        proof {
            assert(relation_behaviour_provider.publishes().dom() =~= Set::empty());
            assert(relation_behaviour_provider.subscribes().dom() =~= Set::empty());
        }
        MqttPluginImpl {
            component_provider: MqttComponentProviderImpl::new(),
            relation_type_provider: MqttRelationTypeProviderImpl::new(),
            flow_provider: MqttFlowProviderImpl::new(),
            entity_behaviour_provider: MqttEntityBehaviourProviderImpl::new(),
            relation_behaviour_provider,
        }
    }

    /// Lifecycle: initialisation always succeeds.
    pub fn init(&self) -> (r: Result<(), PluginError>)
        ensures
            r is Ok,
    {
        Ok(())
    }

    /// Lifecycle: the step after initialisation always succeeds.
    pub fn post_init(&self) -> (r: Result<(), PluginError>)
        ensures
            r is Ok,
    {
        Ok(())
    }

    /// Lifecycle: the step before shutdown always succeeds.
    pub fn pre_shutdown(&self) -> (r: Result<(), PluginError>)
        ensures
            r is Ok,
    {
        Ok(())
    }

    /// Lifecycle: shutdown always succeeds.
    pub fn shutdown(&self) -> (r: Result<(), PluginError>)
        ensures
            r is Ok,
    {
        Ok(())
    }

    /// The plugin supplies no component behaviours.
    pub fn get_component_behaviour_provider(&self) -> (r: Result<(), PluginError>)
        ensures
            r == Err::<(), PluginError>(PluginError::NoComponentBehaviourProvider),
    {
        Err(PluginError::NoComponentBehaviourProvider)
    }

    /// The plugin supplies no web resources.
    pub fn get_web_resource_provider(&self) -> (r: Result<(), PluginError>)
        ensures
            r == Err::<(), PluginError>(PluginError::NoWebResourceProvider),
    {
        Err(PluginError::NoWebResourceProvider)
    }
}

} // verus!
