//! Home Assistant MQTT discovery model for Docker containers: entity id
//! normalization, device descriptions and the sensors and buttons that each
//! container exposes, with the MQTT messages that announce and retract them.

pub mod constants;
pub mod events;
pub mod homeassistant;
pub mod mqtt;
pub mod settings;
pub mod strings;
