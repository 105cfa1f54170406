use std::sync::Arc;

use vstd::prelude::*;

use super::device::Device;
use super::entity::{
    config_topic, config_topic_string, entity_object_id, normalize_object_id, Entity,
    DeviceClass, EntityCategory,
};

verus! {

/// A Home Assistant MQTT button.
#[derive(Debug)]
pub struct Button {
    pub availability_topic: Option<String>,
    pub command_topic: String,
    pub device: Arc<Device>,
    pub device_class: Option<DeviceClass>,
    pub enabled_by_default: Option<bool>,
    pub entity_category: Option<EntityCategory>,
    pub icon: Option<String>,
    pub name: String,
    pub default_entity_id: Option<String>,
    pub object_id: Option<String>,
    pub payload_available: Option<String>,
    pub payload_not_available: Option<String>,
    pub payload_press: String,
    pub retain: Option<bool>,
    pub unique_id: Option<String>,
}

impl Entity for Button {
    open spec fn discovery_topic(&self, base_topic: Seq<char>, node_id: Seq<char>) -> Seq<char> {
        config_topic(
            base_topic,
            "button"@,
            node_id,
            entity_object_id(self.object_id.deep_view(), self.name@),
        )
    }

    fn topic(&self, base_topic: &str, node_id: &str) -> (topic: String) {
        let object_id = match &self.object_id {
            Some(id) => id.clone(),
            None => normalize_object_id(self.name.as_str()),
        };
        config_topic_string(base_topic, "button", node_id, object_id.as_str())
    }
}

} // verus!
