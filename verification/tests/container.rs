use std::sync::Arc;

use gantry_crane::events::ContainerEventInfo;
use gantry_crane::homeassistant::button::Button;
use gantry_crane::homeassistant::container::HomeAssistantContainer;
use gantry_crane::homeassistant::entity::{DeviceClass, Entity, StateClass};
use gantry_crane::homeassistant::sensor::Sensor;
use gantry_crane::mqtt::MqttMessage;
use gantry_crane::settings::{HomeAssistantSettings, MqttSettings, Settings};

fn default_settings() -> Settings {
    Settings {
        mqtt: MqttSettings {
            base_topic: "gantry-crane".to_owned(),
        },
        homeassistant: HomeAssistantSettings {
            base_topic: "homeassistant".to_owned(),
        },
    }
}

fn get_container(
    node_id: &str,
    container_name: &str,
    is_host_networking: bool,
) -> HomeAssistantContainer {
    HomeAssistantContainer::new(
        Arc::new(default_settings()),
        &ContainerEventInfo {
            name: container_name.into(),
            is_host_networking,
        },
        node_id.into(),
    )
}

fn describe_sensor(sensor: &Sensor) -> Option<String> {
    Some(format!("{{\"name\":\"{}\"}}", sensor.name))
}

fn describe_button(button: &Button) -> Option<String> {
    Some(format!("{{\"name\":\"{}\"}}", button.name))
}

fn publish_all(container: &HomeAssistantContainer) -> Vec<MqttMessage> {
    let sensor_payloads: Vec<Option<String>> =
        container.sensors().iter().map(describe_sensor).collect();
    let button_payloads: Vec<Option<String>> =
        container.buttons().iter().map(describe_button).collect();
    container.publish(&sensor_payloads, &button_payloads)
}

fn assert_sensor(
    container: &HomeAssistantContainer,
    name: &str,
    unique_id: &str,
    object_id: &str,
    enabled_by_default: bool,
) {
    let sensor = container.sensors().iter().find(|s| s.name == name).unwrap();
    assert_eq!(sensor.unique_id.as_deref(), Some(unique_id));
    assert_eq!(sensor.object_id.as_deref(), Some(object_id));
    assert_eq!(sensor.default_entity_id.as_deref(), Some(object_id));
    assert_eq!(sensor.enabled_by_default, Some(enabled_by_default));
}

fn assert_button(
    container: &HomeAssistantContainer,
    name: &str,
    unique_id: &str,
    object_id: &str,
    enabled_by_default: bool,
) {
    let button = container.buttons().iter().find(|b| b.name == name).unwrap();
    assert_eq!(button.unique_id.as_deref(), Some(unique_id));
    assert_eq!(button.object_id.as_deref(), Some(object_id));
    assert_eq!(button.default_entity_id.as_deref(), Some(object_id));
    assert_eq!(button.enabled_by_default, Some(enabled_by_default));
}

#[test]
fn container_test_new() {
    let container = HomeAssistantContainer::new(
        Arc::new(default_settings()),
        &ContainerEventInfo {
            name: "/Container Name".into(),
            is_host_networking: false,
        },
        "node_id".into(),
    );

    assert_eq!(container.device().name, "Container Name (node_id)");
    assert_eq!(
        container.device().identifiers,
        vec!["gc_node_id_container_name".to_owned()]
    );
    assert_eq!(container.sensors().len(), 11);
    assert_eq!(container.buttons().len(), 7);
}

#[test]
fn test_multi_host_ids_for_same_container_name() {
    let host_a = get_container("docker01-rrnuc", "/dockerproxy", false);
    let host_b = get_container("docker01-muestation", "/dockerproxy", false);

    assert_ne!(host_a.device().identifiers, host_b.device().identifiers);
    assert_eq!(
        host_a.device().identifiers,
        vec!["gc_docker01-rrnuc_dockerproxy".to_owned()]
    );
    assert_eq!(
        host_b.device().identifiers,
        vec!["gc_docker01-muestation_dockerproxy".to_owned()]
    );
    assert_eq!(host_a.device().name, "dockerproxy (docker01-rrnuc)");
    assert_eq!(host_b.device().name, "dockerproxy (docker01-muestation)");

    for (a, b) in host_a.sensors().iter().zip(host_b.sensors().iter()) {
        assert_ne!(a.unique_id, b.unique_id);
        assert_ne!(a.object_id, b.object_id);
        assert_eq!(a.state_topic, "gantry-crane/dockerproxy");
    }

    for (a, b) in host_a.buttons().iter().zip(host_b.buttons().iter()) {
        assert_ne!(a.unique_id, b.unique_id);
        assert_ne!(a.object_id, b.object_id);
        assert_eq!(a.command_topic, "gantry-crane/dockerproxy/set");
    }
}

#[test]
fn test_multi_host_ids_for_different_containers_on_same_host() {
    let dockerproxy = get_container("docker01-rrnuc", "/dockerproxy", false);
    let portainer = get_container("docker01-rrnuc", "/portainer", false);

    assert_ne!(dockerproxy.device().identifiers, portainer.device().identifiers);
    assert_ne!(
        dockerproxy.sensors()[0].unique_id,
        portainer.sensors()[0].unique_id
    );
}

#[test]
fn test_representative_entity_ids_and_defaults() {
    let container = get_container("docker01-rrnuc", "/dockerproxy", false);

    assert_sensor(
        &container,
        "Image",
        "gc_docker01-rrnuc_dockerproxy_image",
        "docker01_rrnuc_dockerproxy_image",
        true,
    );
    assert_sensor(
        &container,
        "Health",
        "gc_docker01-rrnuc_dockerproxy_health",
        "docker01_rrnuc_dockerproxy_health",
        true,
    );
    assert_sensor(
        &container,
        "CPU Percentage",
        "gc_docker01-rrnuc_dockerproxy_cpu",
        "docker01_rrnuc_dockerproxy_cpu",
        true,
    );
    assert_sensor(
        &container,
        "1CPU",
        "gc_docker01-rrnuc_dockerproxy_cpu_1core",
        "docker01_rrnuc_dockerproxy_cpu_1core",
        true,
    );
    assert_sensor(
        &container,
        "Memory Usage",
        "gc_docker01-rrnuc_dockerproxy_mem_mb",
        "docker01_rrnuc_dockerproxy_mem_mb",
        true,
    );
    assert_sensor(
        &container,
        "Net RX",
        "gc_docker01-rrnuc_dockerproxy_net_rx",
        "docker01_rrnuc_dockerproxy_net_rx",
        false,
    );
    assert_button(
        &container,
        "Restart",
        "gc_docker01-rrnuc_dockerproxy_restart",
        "docker01_rrnuc_dockerproxy_restart",
        true,
    );
}

#[test]
fn test_publish() {
    let container = get_container("node_id", "/Container Name", false);
    let messages = publish_all(&container);
    assert_eq!(messages.len(), 18);
    assert!(messages.iter().all(|m| m.retain && m.qos == 1 && !m.payload.is_empty()));
}

#[test]
fn test_publish_entity() {
    let container = get_container("node_id", "/Container Name", false);
    let entity = &container.sensors()[0];
    let message = container
        .publish_entity(entity, describe_sensor(entity))
        .unwrap();
    assert_ne!(message.payload.len(), 0);
    assert_eq!(
        message.topic,
        "homeassistant/sensor/node_id/node_id_container_name_image/config"
    );
    assert!(message.retain);
    assert_eq!(message.qos, 1);

    assert!(container.publish_entity(entity, None).is_none());
}

#[test]
fn test_unpublish() {
    let container = get_container("node_id", "/Container Name", false);
    let messages = container.unpublish();
    assert_eq!(messages.len(), 18);
    assert!(messages.iter().all(|m| m.retain && m.qos == 1 && m.payload.is_empty()));
}

#[test]
fn test_unpublish_entity() {
    let container = get_container("node_id", "/Container Name", false);
    let entity = &container.sensors()[0];
    let message = container.unpublish_entity(entity);
    assert_eq!(message.payload.len(), 0);
    assert_eq!(
        message.topic,
        "homeassistant/sensor/node_id/node_id_container_name_image/config"
    );
}

#[test]
fn host_networking_leaves_out_network_sensors() {
    let container = get_container("node", "/web", true);
    assert_eq!(container.sensors().len(), 9);
    assert_eq!(container.buttons().len(), 7);
    assert!(container
        .sensors()
        .iter()
        .all(|s| s.name != "Net RX" && s.name != "Net TX"));
    assert_eq!(container.unpublish().len(), 16);
    assert_eq!(publish_all(&container).len(), 16);
}

#[test]
fn sensors_and_buttons_come_in_order_with_their_settings() {
    let container = get_container("node", "/web", false);
    let names: Vec<&str> = container.sensors().iter().map(|s| s.name.as_str()).collect();
    assert_eq!(
        names,
        vec![
            "Image",
            "State",
            "Health",
            "CPU Percentage",
            "1CPU",
            "Memory Percentage",
            "Memory Usage",
            "Net RX",
            "Net TX",
            "Block RX",
            "Block TX"
        ]
    );
    let names: Vec<&str> = container.buttons().iter().map(|b| b.name.as_str()).collect();
    assert_eq!(
        names,
        vec!["Start", "Stop", "Restart", "Pause", "Unpause", "Recreate", "Pull and Recreate"]
    );

    let cpu = &container.sensors()[3];
    assert_eq!(cpu.state_class, Some(StateClass::Measurement));
    assert_eq!(cpu.unit_of_measurement.as_deref(), Some("%"));
    assert_eq!(cpu.icon.as_deref(), Some("mdi:cpu-64-bit"));
    assert_eq!(
        cpu.value_template.as_deref(),
        Some("{{ value_json['cpu_percentage'] }}")
    );
    assert_eq!(
        cpu.availability_topic.as_deref(),
        Some("gantry-crane/availability")
    );
    assert_eq!(cpu.state_topic, "gantry-crane/web");
    assert_eq!(cpu.entity_category, None);
    assert_eq!(cpu.expire_after, None);
    assert_eq!(cpu.force_update, None);
    assert_eq!(cpu.payload_available, None);
    assert_eq!(cpu.payload_not_available, None);

    let image = &container.sensors()[0];
    assert_eq!(image.state_class, None);
    assert_eq!(image.unit_of_measurement, None);

    let mem_mb = &container.sensors()[6];
    assert_eq!(mem_mb.unit_of_measurement.as_deref(), Some("MB"));

    let restart = &container.buttons()[2];
    assert_eq!(restart.device_class, Some(DeviceClass::Restart));
    assert_eq!(restart.icon, None);
    assert_eq!(restart.payload_press, "restart");
    assert_eq!(restart.command_topic, "gantry-crane/web/set");
    assert_eq!(restart.retain, None);

    let pull = &container.buttons()[6];
    assert_eq!(pull.payload_press, "pull_recreate");
    assert_eq!(pull.enabled_by_default, Some(false));
    assert_eq!(pull.icon.as_deref(), Some("mdi:update"));
}

#[test]
fn every_entity_shares_the_container_device() {
    let container = get_container("docker01-rrnuc", "/dockerproxy", false);
    let device = container.device();
    assert_eq!(device.manufacturer.as_deref(), Some("Docker"));
    assert_eq!(device.model, None);
    assert_eq!(device.sw_version, None);
    for sensor in container.sensors() {
        assert_eq!(sensor.device.name, device.name);
        assert_eq!(sensor.device.identifiers, device.identifiers);
    }
    for button in container.buttons() {
        assert_eq!(button.device.name, device.name);
        assert_eq!(button.device.identifiers, device.identifiers);
    }
}

#[test]
fn entity_ids_and_topics_are_distinct_within_a_container() {
    let container = get_container("docker01-rrnuc", "/dockerproxy", false);
    let mut unique_ids: Vec<String> = Vec::new();
    let mut object_ids: Vec<String> = Vec::new();
    for s in container.sensors() {
        unique_ids.push(s.unique_id.clone().unwrap());
        object_ids.push(s.object_id.clone().unwrap());
    }
    for b in container.buttons() {
        unique_ids.push(b.unique_id.clone().unwrap());
        object_ids.push(b.object_id.clone().unwrap());
    }
    let topics: Vec<String> = container.unpublish().into_iter().map(|m| m.topic).collect();
    for list in [&unique_ids, &object_ids, &topics] {
        let mut sorted = list.clone();
        sorted.sort();
        sorted.dedup();
        assert_eq!(sorted.len(), list.len());
    }
}

#[test]
fn unpublish_clears_every_published_topic() {
    let container = get_container("docker01-rrnuc", "/dockerproxy", false);
    let published = publish_all(&container);
    let retracted = container.unpublish();
    assert_eq!(published.len(), retracted.len());
    for (p, r) in published.iter().zip(retracted.iter()) {
        assert_eq!(p.topic, r.topic);
        assert!(r.payload.is_empty());
    }
}

#[test]
fn entities_that_cannot_be_described_are_skipped() {
    let container = get_container("docker01-rrnuc", "/dockerproxy", false);
    let mut sensor_payloads: Vec<Option<String>> =
        container.sensors().iter().map(describe_sensor).collect();
    let button_payloads: Vec<Option<String>> =
        container.buttons().iter().map(|_| None).collect();
    sensor_payloads[1] = None;
    let published = container.publish(&sensor_payloads, &button_payloads);
    assert_eq!(published.len(), 10);
    assert_eq!(
        published[0].topic,
        "homeassistant/sensor/docker01-rrnuc/docker01_rrnuc_dockerproxy_image/config"
    );
    assert_eq!(
        published[1].topic,
        "homeassistant/sensor/docker01-rrnuc/docker01_rrnuc_dockerproxy_health/config"
    );
    let retracted: Vec<String> = container.unpublish().into_iter().map(|m| m.topic).collect();
    for message in &published {
        assert!(retracted.contains(&message.topic));
    }
}

#[test]
fn button_topic_uses_button_component() {
    let container = get_container("docker01-rrnuc", "/dockerproxy", false);
    let start = &container.buttons()[0];
    assert_eq!(
        start.topic("homeassistant", "docker01-rrnuc"),
        "homeassistant/button/docker01-rrnuc/docker01_rrnuc_dockerproxy_start/config"
    );
}

#[test]
fn entity_without_object_id_is_filed_under_its_normalized_name() {
    let container = get_container("node", "/web", false);
    let mut message = container.unpublish_entity(&container.sensors()[0]);
    assert_eq!(message.topic, "homeassistant/sensor/node/node_web_image/config");

    let sensor = &container.sensors()[0];
    let anonymous = Sensor {
        availability_topic: None,
        device: sensor.device.clone(),
        enabled_by_default: None,
        entity_category: None,
        expire_after: None,
        force_update: None,
        icon: None,
        name: "Disk Usage".to_owned(),
        default_entity_id: None,
        object_id: None,
        payload_available: None,
        payload_not_available: None,
        state_class: None,
        state_topic: "x".to_owned(),
        unique_id: None,
        unit_of_measurement: None,
        value_template: None,
    };
    message = container.unpublish_entity(&anonymous);
    assert_eq!(message.topic, "homeassistant/sensor/node/disk_usage/config");
}

#[test]
fn container_name_keeps_inner_slashes() {
    let container = get_container("node", "//a/b", false);
    assert_eq!(container.device().name, "a/b (node)");
    assert_eq!(container.sensors()[0].state_topic, "gantry-crane/a/b");
    assert_eq!(
        container.sensors()[0].object_id.as_deref(),
        Some("node_a_b_image")
    );
}

#[test]
fn mqtt_message_new_keeps_its_fields() {
    let m = MqttMessage::new("t".to_owned(), "p".to_owned(), false, 2);
    assert_eq!(m.topic, "t");
    assert_eq!(m.payload, "p");
    assert!(!m.retain);
    assert_eq!(m.qos, 2);
}
