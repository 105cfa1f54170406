use vstd::prelude::*;

verus! {

/// The part of the application settings that the Home Assistant entities
/// are built from.
#[derive(Debug)]
pub struct Settings {
    pub mqtt: MqttSettings,
    pub homeassistant: HomeAssistantSettings,
}

/// MQTT settings: the prefix of the topics that carry container state.
#[derive(Debug)]
pub struct MqttSettings {
    pub base_topic: String,
}

/// Home Assistant settings: the discovery prefix.
#[derive(Debug)]
pub struct HomeAssistantSettings {
    pub base_topic: String,
}

} // verus!
