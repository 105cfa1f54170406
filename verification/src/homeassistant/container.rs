use std::sync::Arc;

use vstd::prelude::*;

use crate::constants::{AVAILABILITY_TOPIC, SET_STATE_TOPIC};
use crate::events::ContainerEventInfo;
use crate::mqtt::{MqttMessage, MqttMessageView};
use crate::settings::Settings;
use crate::strings::{trim_start, trim_start_matching};

use super::button::Button;
use super::device::Device;
use super::entity::{
    normalize_object_id, normalize_unique_id_part, normalized_id, DeviceClass, Entity,
    StateClass,
};
use super::sensor::Sensor;

verus! {

// ---------------------------------------------------------------------------
// The container and its abstract view
// ---------------------------------------------------------------------------

/// A Docker container as Home Assistant sees it: one device with its
/// sensors and buttons.
pub struct HomeAssistantContainer {
    settings: Arc<Settings>,
    node_id: String,
    container_name: String,
    object_id_prefix: String,
    unique_id_prefix: String,
    is_host_networking: bool,
    device: Arc<Device>,
    sensors: Vec<Sensor>,
    buttons: Vec<Button>,
}

/// What a [`HomeAssistantContainer`] holds.
pub struct ContainerView {
    pub settings: Settings,
    pub node_id: Seq<char>,
    pub container_name: Seq<char>,
    pub object_id_prefix: Seq<char>,
    pub unique_id_prefix: Seq<char>,
    pub is_host_networking: bool,
    pub device: Device,
    pub sensors: Seq<Sensor>,
    pub buttons: Seq<Button>,
}

impl View for HomeAssistantContainer {
    type V = ContainerView;

    closed spec fn view(&self) -> ContainerView {
        ContainerView {
            settings: *self.settings,
            node_id: self.node_id@,
            container_name: self.container_name@,
            object_id_prefix: self.object_id_prefix@,
            unique_id_prefix: self.unique_id_prefix@,
            is_host_networking: self.is_host_networking,
            device: *self.device,
            sensors: self.sensors@,
            buttons: self.buttons@,
        }
    }
}

impl ContainerView {
    /// The prefix of the topics that carry container state.
    pub open spec fn mqtt_base_topic(self) -> Seq<char> {
        self.settings.mqtt.base_topic@
    }

    /// Home Assistant's discovery prefix.
    pub open spec fn discovery_prefix(self) -> Seq<char> {
        self.settings.homeassistant.base_topic@
    }

    /// The topic that carries the container's state.
    pub open spec fn state_topic(self) -> Seq<char> {
        self.mqtt_base_topic() + "/"@ + self.container_name
    }

    /// The topic that takes commands for the container.
    pub open spec fn set_topic(self) -> Seq<char> {
        self.mqtt_base_topic() + "/"@ + self.container_name + "/"@ + SET_STATE_TOPIC@
    }

    /// The topic that tells whether the application is available.
    pub open spec fn availability_topic(self) -> Seq<char> {
        self.mqtt_base_topic() + "/"@ + AVAILABILITY_TOPIC@
    }

    /// The object id of the container's entity with the given suffix.
    pub open spec fn object_id(self, suffix: Seq<char>) -> Seq<char> {
        self.object_id_prefix + "_"@ + suffix
    }

    /// The unique id of the container's entity with the given suffix.
    pub open spec fn unique_id(self, suffix: Seq<char>) -> Seq<char> {
        "gc_"@ + self.unique_id_prefix + "_"@ + suffix
    }

    /// `self` and `other` agree on everything but their entities.
    pub open spec fn same_identity(self, other: ContainerView) -> bool {
        &&& self.settings == other.settings
        &&& self.node_id == other.node_id
        &&& self.container_name == other.container_name
        &&& self.object_id_prefix == other.object_id_prefix
        &&& self.unique_id_prefix == other.unique_id_prefix
        &&& self.is_host_networking == other.is_host_networking
        &&& self.device == other.device
    }
}

/// The prefix of the unique ids of a container's device and entities: the
/// node id and the container name, each normalized, joined by `_`.
pub open spec fn unique_id_prefix_of(node_id: Seq<char>, container_name: Seq<char>) -> Seq<char> {
    normalized_id(node_id, true) + "_"@ + normalized_id(container_name, true)
}

// ---------------------------------------------------------------------------
// The entities of a container
// ---------------------------------------------------------------------------

/// What distinguishes one sensor of a container from another.
pub struct SensorRow {
    pub name: Seq<char>,
    pub suffix: Seq<char>,
    pub icon: Option<Seq<char>>,
    pub state_class: Option<StateClass>,
    pub unit_of_measurement: Option<Seq<char>>,
    pub value_template: Seq<char>,
    pub enabled_by_default: bool,
}

/// What distinguishes one button of a container from another.
pub struct ButtonRow {
    pub name: Seq<char>,
    pub suffix: Seq<char>,
    pub payload_press: Seq<char>,
    pub icon: Option<Seq<char>>,
    pub device_class: Option<DeviceClass>,
    pub enabled_by_default: bool,
}

/// The [`SensorRow`] with the given parts, as the code that builds a
/// sensor passes them.
pub open spec fn sensor_row(
    name: &str,
    suffix: &str,
    icon: Option<&str>,
    state_class: Option<StateClass>,
    unit_of_measurement: Option<&str>,
    value_template: &str,
    enabled_by_default: bool,
) -> SensorRow {
    SensorRow {
        name: name@,
        suffix: suffix@,
        icon: icon.deep_view(),
        state_class,
        unit_of_measurement: unit_of_measurement.deep_view(),
        value_template: value_template@,
        enabled_by_default,
    }
}

/// The [`ButtonRow`] with the given parts, as the code that builds a
/// button passes them.
pub open spec fn button_row(
    name: &str,
    suffix: &str,
    payload_press: &str,
    icon: Option<&str>,
    device_class: Option<DeviceClass>,
    enabled_by_default: bool,
) -> ButtonRow {
    ButtonRow {
        name: name@,
        suffix: suffix@,
        payload_press: payload_press@,
        icon: icon.deep_view(),
        device_class,
        enabled_by_default,
    }
}

/// The sensors of a container, in order. Network traffic is not measured
/// for a container in host network mode.
pub open spec fn sensor_rows(is_host_networking: bool) -> Seq<SensorRow> {
    let common = seq![
        sensor_row("Image", "image", Some("mdi:docker"), None, None, "{{ value_json['image'] }}", true),
        sensor_row("State", "state", Some("mdi:docker"), None, None, "{{ value_json['state'] }}", true),
        sensor_row("Health", "health", Some("mdi:heart-pulse"), None, None, "{{ value_json['health'] }}", true),
        sensor_row("CPU Percentage", "cpu", Some("mdi:cpu-64-bit"), Some(StateClass::Measurement), Some("%"), "{{ value_json['cpu_percentage'] }}", true),
        sensor_row("1CPU", "cpu_1core", Some("mdi:cpu-64-bit"), Some(StateClass::Measurement), Some("%"), "{{ value_json['cpu_1core_percentage'] }}", true),
        sensor_row("Memory Percentage", "mem", Some("mdi:memory"), Some(StateClass::Measurement), Some("%"), "{{ value_json['mem_percentage'] }}", true),
        sensor_row("Memory Usage", "mem_mb", Some("mdi:memory"), Some(StateClass::Measurement), Some("MB"), "{{ value_json['mem_mb'] }}", true),
    ];
    let network = seq![
        sensor_row("Net RX", "net_rx", Some("mdi:download-network-outline"), Some(StateClass::Measurement), Some("MB"), "{{ value_json['net_rx_mb'] }}", false),
        sensor_row("Net TX", "net_tx", Some("mdi:upload-network-outline"), Some(StateClass::Measurement), Some("MB"), "{{ value_json['net_tx_mb'] }}", false),
    ];
    let block = seq![
        sensor_row("Block RX", "block_rx", Some("mdi:file-download-outline"), Some(StateClass::Measurement), Some("MB"), "{{ value_json['block_rx_mb'] }}", false),
        sensor_row("Block TX", "block_tx", Some("mdi:file-upload-outline"), Some(StateClass::Measurement), Some("MB"), "{{ value_json['block_tx_mb'] }}", false),
    ];
    if is_host_networking {
        common + block
    } else {
        common + network + block
    }
}

/// The buttons of a container, in order.
pub open spec fn button_rows() -> Seq<ButtonRow> {
    seq![
        button_row("Start", "start", "start", Some("mdi:play"), None, true),
        button_row("Stop", "stop", "stop", Some("mdi:stop"), None, true),
        button_row("Restart", "restart", "restart", None, Some(DeviceClass::Restart), true),
        button_row("Pause", "pause", "pause", Some("mdi:pause"), None, false),
        button_row("Unpause", "unpause", "unpause", Some("mdi:play-pause"), None, false),
        button_row("Recreate", "recreate", "recreate", Some("mdi:autorenew"), None, false),
        button_row("Pull and Recreate", "pull_recreate", "pull_recreate", Some("mdi:update"), None, false),
    ]
}

/// `s` is the sensor described by `row` for the container `c`.
pub open spec fn is_sensor_for(s: Sensor, c: ContainerView, row: SensorRow) -> bool {
    &&& s.availability_topic.deep_view() == Some(c.availability_topic())
    &&& *s.device == c.device
    &&& s.enabled_by_default == Some(row.enabled_by_default)
    &&& s.entity_category is None
    &&& s.expire_after is None
    &&& s.force_update is None
    &&& s.icon.deep_view() == row.icon
    &&& s.name@ == row.name
    &&& s.default_entity_id.deep_view() == Some(c.object_id(row.suffix))
    &&& s.object_id.deep_view() == Some(c.object_id(row.suffix))
    &&& s.payload_available is None
    &&& s.payload_not_available is None
    &&& s.state_class == row.state_class
    &&& s.state_topic@ == c.state_topic()
    &&& s.unique_id.deep_view() == Some(c.unique_id(row.suffix))
    &&& s.unit_of_measurement.deep_view() == row.unit_of_measurement
    &&& s.value_template.deep_view() == Some(row.value_template)
}

/// `b` is the button described by `row` for the container `c`.
pub open spec fn is_button_for(b: Button, c: ContainerView, row: ButtonRow) -> bool {
    &&& b.availability_topic.deep_view() == Some(c.availability_topic())
    &&& b.command_topic@ == c.set_topic()
    &&& *b.device == c.device
    &&& b.device_class == row.device_class
    &&& b.enabled_by_default == Some(row.enabled_by_default)
    &&& b.entity_category is None
    &&& b.icon.deep_view() == row.icon
    &&& b.name@ == row.name
    &&& b.default_entity_id.deep_view() == Some(c.object_id(row.suffix))
    &&& b.object_id.deep_view() == Some(c.object_id(row.suffix))
    &&& b.payload_available is None
    &&& b.payload_not_available is None
    &&& b.payload_press@ == row.payload_press
    &&& b.retain is None
    &&& b.unique_id.deep_view() == Some(c.unique_id(row.suffix))
}

/// `c` has exactly the sensors of [`sensor_rows`] and the buttons of
/// [`button_rows`], in that order.
pub open spec fn has_standard_entities(c: ContainerView) -> bool {
    &&& c.sensors.len() == sensor_rows(c.is_host_networking).len()
    &&& forall|i: int|
        0 <= i < c.sensors.len() ==> is_sensor_for(
            #[trigger] c.sensors[i],
            c,
            sensor_rows(c.is_host_networking)[i],
        )
    &&& c.buttons.len() == button_rows().len()
    &&& forall|i: int|
        0 <= i < c.buttons.len() ==> is_button_for(#[trigger] c.buttons[i], c, button_rows()[i])
}

// ---------------------------------------------------------------------------
// The messages that announce and retract a container
// ---------------------------------------------------------------------------

/// The discovery topics of a container's entities: its sensors, then its
/// buttons.
pub open spec fn entity_topics(c: ContainerView) -> Seq<Seq<char>> {
    c.sensors.map_values(|s: Sensor| s.discovery_topic(c.discovery_prefix(), c.node_id))
        + c.buttons.map_values(|b: Button| b.discovery_topic(c.discovery_prefix(), c.node_id))
}

/// A retained discovery message, sent with QoS 1.
pub open spec fn discovery_message(topic: Seq<char>, payload: Seq<char>) -> MqttMessageView {
    MqttMessageView { topic, payload, retain: true, qos: 1 }
}

/// The messages that announce entities: for each topic whose entity could
/// be described (`Some` payload), in order, that description on the topic.
pub open spec fn announcement(
    topics: Seq<Seq<char>>,
    payloads: Seq<Option<Seq<char>>>,
) -> Seq<MqttMessageView>
    decreases topics.len(),
{
    if topics.len() == 0 {
        Seq::empty()
    } else {
        let earlier = announcement(topics.drop_last(), payloads.drop_last());
        match payloads.last() {
            Some(payload) => earlier.push(discovery_message(topics.last(), payload)),
            None => earlier,
        }
    }
}

/// The messages that retract entities: an empty retained message on each
/// topic, in order.
pub open spec fn retraction(topics: Seq<Seq<char>>) -> Seq<MqttMessageView> {
    topics.map_values(|topic: Seq<char>| discovery_message(topic, Seq::empty()))
}

/// `Arc::clone`: another handle to the same allocation, so the value
/// behind it is the same.
#[verifier::external_body]
fn share<T>(shared: &Arc<T>) -> (r: Arc<T>)
    ensures
        r == *shared,
{
    Arc::clone(shared)
}

fn owned_option(s: Option<&str>) -> (r: Option<String>)
    ensures
        r.deep_view() == s.deep_view(),
{
    match s {
        Some(s) => Some(s.to_owned()),
        None => None,
    }
}

impl HomeAssistantContainer {
    fn state_topic(&self) -> (topic: String)
        ensures
            topic@ == self@.state_topic(),
    {
        let mut topic = self.settings.mqtt.base_topic.clone();
        topic.append("/");
        topic.append(self.container_name.as_str());
        topic
    }

    fn set_topic(&self) -> (topic: String)
        ensures
            topic@ == self@.set_topic(),
    {
        let mut topic = self.settings.mqtt.base_topic.clone();
        topic.append("/");
        topic.append(self.container_name.as_str());
        topic.append("/");
        topic.append(SET_STATE_TOPIC);
        topic
    }

    fn availability_topic(&self) -> (topic: Option<String>)
        ensures
            topic.deep_view() == Some(self@.availability_topic()),
    {
        let mut topic = self.settings.mqtt.base_topic.clone();
        topic.append("/");
        topic.append(AVAILABILITY_TOPIC);
        Some(topic)
    }

    fn object_id(&self, suffix: &str) -> (id: String)
        ensures
            id@ == self@.object_id(suffix@),
    {
        let mut id = self.object_id_prefix.clone();
        id.append("_");
        id.append(suffix);
        id
    }

    fn unique_id(&self, suffix: &str) -> (id: String)
        ensures
            id@ == self@.unique_id(suffix@),
    {
        let mut id = "gc_".to_owned();
        id.append(self.unique_id_prefix.as_str());
        id.append("_");
        id.append(suffix);
        id
    }

    fn sensor(
        &self,
        name: &str,
        suffix: &str,
        icon: Option<&str>,
        state_class: Option<StateClass>,
        unit_of_measurement: Option<&str>,
        value_template: &str,
        enabled_by_default: bool,
    ) -> (sensor: Sensor)
        ensures
            is_sensor_for(
                sensor,
                self@,
                sensor_row(
                    name,
                    suffix,
                    icon,
                    state_class,
                    unit_of_measurement,
                    value_template,
                    enabled_by_default,
                ),
            ),
    {
        Sensor {
            availability_topic: self.availability_topic(),
            device: share(&self.device),
            enabled_by_default: Some(enabled_by_default),
            entity_category: None,
            expire_after: None,
            force_update: None,
            icon: owned_option(icon),
            name: name.to_owned(),
            default_entity_id: Some(self.object_id(suffix)),
            object_id: Some(self.object_id(suffix)),
            payload_available: None,
            payload_not_available: None,
            state_class,
            state_topic: self.state_topic(),
            unique_id: Some(self.unique_id(suffix)),
            unit_of_measurement: owned_option(unit_of_measurement),
            value_template: Some(value_template.to_owned()),
        }
    }

    fn button(
        &self,
        name: &str,
        suffix: &str,
        payload_press: &str,
        icon: Option<&str>,
        device_class: Option<DeviceClass>,
        enabled_by_default: bool,
    ) -> (button: Button)
        ensures
            is_button_for(
                button,
                self@,
                button_row(name, suffix, payload_press, icon, device_class, enabled_by_default),
            ),
    {
        Button {
            availability_topic: self.availability_topic(),
            command_topic: self.set_topic(),
            device: share(&self.device),
            device_class,
            enabled_by_default: Some(enabled_by_default),
            entity_category: None,
            icon: owned_option(icon),
            name: name.to_owned(),
            default_entity_id: Some(self.object_id(suffix)),
            object_id: Some(self.object_id(suffix)),
            payload_available: None,
            payload_not_available: None,
            payload_press: payload_press.to_owned(),
            retain: None,
            unique_id: Some(self.unique_id(suffix)),
        }
    }

    fn setup_sensors(self) -> (r: Self)
        ensures
            r@.same_identity(self@),
            r@.buttons == self@.buttons,
            r@.sensors.len() == self@.sensors.len() + sensor_rows(self@.is_host_networking).len(),
            forall|i: int| 0 <= i < self@.sensors.len() ==> r@.sensors[i] == self@.sensors[i],
            forall|i: int|
                0 <= i < sensor_rows(self@.is_host_networking).len() ==> is_sensor_for(
                    #[trigger] r@.sensors[self@.sensors.len() + i],
                    r@,
                    sensor_rows(self@.is_host_networking)[i],
                ),
    {
        let mut this = self;

        // Image
        this.sensors.push(this.sensor(
            "Image",
            "image",
            Some("mdi:docker"),
            None,
            None,
            "{{ value_json['image'] }}",
            true,
        ));

        // State
        this.sensors.push(this.sensor(
            "State",
            "state",
            Some("mdi:docker"),
            None,
            None,
            "{{ value_json['state'] }}",
            true,
        ));

        // Health
        this.sensors.push(this.sensor(
            "Health",
            "health",
            Some("mdi:heart-pulse"),
            None,
            None,
            "{{ value_json['health'] }}",
            true,
        ));

        // CPU
        this.sensors.push(this.sensor(
            "CPU Percentage",
            "cpu",
            Some("mdi:cpu-64-bit"),
            Some(StateClass::Measurement),
            Some("%"),
            "{{ value_json['cpu_percentage'] }}",
            true,
        ));

        // 1CPU
        this.sensors.push(this.sensor(
            "1CPU",
            "cpu_1core",
            Some("mdi:cpu-64-bit"),
            Some(StateClass::Measurement),
            Some("%"),
            "{{ value_json['cpu_1core_percentage'] }}",
            true,
        ));

        // Memory percentage
        this.sensors.push(this.sensor(
            "Memory Percentage",
            "mem",
            Some("mdi:memory"),
            Some(StateClass::Measurement),
            Some("%"),
            "{{ value_json['mem_percentage'] }}",
            true,
        ));

        // Memory absolute
        this.sensors.push(this.sensor(
            "Memory Usage",
            "mem_mb",
            Some("mdi:memory"),
            Some(StateClass::Measurement),
            Some("MB"),
            "{{ value_json['mem_mb'] }}",
            true,
        ));

        // Network stats are not available in case of host network mode
        if !this.is_host_networking {
            // Net RX
            this.sensors.push(this.sensor(
                "Net RX",
                "net_rx",
                Some("mdi:download-network-outline"),
                Some(StateClass::Measurement),
                Some("MB"),
                "{{ value_json['net_rx_mb'] }}",
                false,
            ));

            // Net TX
            this.sensors.push(this.sensor(
                "Net TX",
                "net_tx",
                Some("mdi:upload-network-outline"),
                Some(StateClass::Measurement),
                Some("MB"),
                "{{ value_json['net_tx_mb'] }}",
                false,
            ));
        }

        // Block RX
        this.sensors.push(this.sensor(
            "Block RX",
            "block_rx",
            Some("mdi:file-download-outline"),
            Some(StateClass::Measurement),
            Some("MB"),
            "{{ value_json['block_rx_mb'] }}",
            false,
        ));

        // Block TX
        this.sensors.push(this.sensor(
            "Block TX",
            "block_tx",
            Some("mdi:file-upload-outline"),
            Some(StateClass::Measurement),
            Some("MB"),
            "{{ value_json['block_tx_mb'] }}",
            false,
        ));

        this
    }

    fn setup_buttons(self) -> (r: Self)
        ensures
            r@.same_identity(self@),
            r@.sensors == self@.sensors,
            r@.buttons.len() == self@.buttons.len() + button_rows().len(),
            forall|i: int| 0 <= i < self@.buttons.len() ==> r@.buttons[i] == self@.buttons[i],
            forall|i: int|
                0 <= i < button_rows().len() ==> is_button_for(
                    #[trigger] r@.buttons[self@.buttons.len() + i],
                    r@,
                    button_rows()[i],
                ),
    {
        let mut this = self;

        // Start
        this.buttons.push(this.button("Start", "start", "start", Some("mdi:play"), None, true));

        // Stop
        this.buttons.push(this.button("Stop", "stop", "stop", Some("mdi:stop"), None, true));

        // Restart
        this.buttons.push(this.button(
            "Restart",
            "restart",
            "restart",
            None,
            Some(DeviceClass::Restart),
            true,
        ));

        // Pause
        this.buttons.push(this.button("Pause", "pause", "pause", Some("mdi:pause"), None, false));

        // Unpause
        this.buttons.push(this.button(
            "Unpause",
            "unpause",
            "unpause",
            Some("mdi:play-pause"),
            None,
            false,
        ));

        // Recreate
        this.buttons.push(this.button(
            "Recreate",
            "recreate",
            "recreate",
            Some("mdi:autorenew"),
            None,
            false,
        ));

        // Pull and recreate
        this.buttons.push(this.button(
            "Pull and Recreate",
            "pull_recreate",
            "pull_recreate",
            Some("mdi:update"),
            None,
            false,
        ));

        this
    }

    /// The Home Assistant model of a container reported by Docker on the
    /// node `node_id`: its device, its sensors and its buttons.
    pub fn new(settings: Arc<Settings>, container: &ContainerEventInfo, node_id: String) -> (c: Self)
        ensures
            c@.settings == *settings,
            c@.node_id == node_id@,
            c@.container_name == trim_start(container.name@, '/'),
            c@.is_host_networking == container.is_host_networking,
            c@.unique_id_prefix == unique_id_prefix_of(node_id@, c@.container_name),
            c@.object_id_prefix == normalized_id(node_id@ + "_"@ + c@.container_name, false),
            c@.device.name@ == c@.container_name + " ("@ + node_id@ + ")"@,
            c@.device.identifiers.deep_view() == seq!["gc_"@ + c@.unique_id_prefix],
            c@.device.manufacturer.deep_view() == Some("Docker"@),
            c@.device.model is None,
            c@.device.sw_version is None,
            has_standard_entities(c@),
    {
        let container_name = trim_start_matching(container.name.as_str(), '/');
        let mut unique_id_prefix = normalize_unique_id_part(node_id.as_str());
        let container_part = normalize_unique_id_part(container_name.as_str());
        unique_id_prefix.append("_");
        unique_id_prefix.append(container_part.as_str());
        let mut joined = node_id.clone();
        joined.append("_");
        joined.append(container_name.as_str());
        let object_id_prefix = normalize_object_id(joined.as_str());
        let mut device_name = container_name.clone();
        device_name.append(" (");
        device_name.append(node_id.as_str());
        device_name.append(")");
        let mut identifier = "gc_".to_owned();
        identifier.append(unique_id_prefix.as_str());
        let device = Device::new_with_identifier(
            device_name,
            identifier,
            Some("Docker".to_owned()),
        );

        let empty = HomeAssistantContainer {
            settings,
            node_id,
            container_name,
            object_id_prefix,
            unique_id_prefix,
            is_host_networking: container.is_host_networking,
            device: Arc::new(device),
            sensors: Vec::new(),
            buttons: Vec::new(),
        };
        let with_sensors = empty.setup_sensors();
        let r = with_sensors.setup_buttons();
        assert forall|i: int| 0 <= i < r@.sensors.len() implies is_sensor_for(
            #[trigger] r@.sensors[i],
            r@,
            sensor_rows(container.is_host_networking)[i],
        ) by {
            assert(r@.sensors[i] == with_sensors@.sensors[0 + i]);
        }
        assert forall|i: int| 0 <= i < r@.buttons.len() implies is_button_for(
            #[trigger] r@.buttons[i],
            r@,
            button_rows()[i],
        ) by {
            assert(r@.buttons[i] == r@.buttons[0 + i]);
        }
        r
    }

    /// The device that all entities of the container belong to.
    pub fn device(&self) -> (device: &Device)
        ensures
            *device == self@.device,
    {
        &self.device
    }

    /// The container's sensors.
    pub fn sensors(&self) -> (sensors: &Vec<Sensor>)
        ensures
            sensors@ == self@.sensors,
    {
        &self.sensors
    }

    /// The container's buttons.
    pub fn buttons(&self) -> (buttons: &Vec<Button>)
        ensures
            buttons@ == self@.buttons,
    {
        &self.buttons
    }

    /// The message that announces `entity` with the description `payload`,
    /// or none when the entity could not be described.
    pub fn publish_entity(&self, entity: &impl Entity, payload: Option<String>) -> (message:
        Option<MqttMessage>)
        ensures
            match payload {
                Some(p) => message matches Some(m) && m@ == discovery_message(
                    entity.discovery_topic(self@.discovery_prefix(), self@.node_id),
                    p@,
                ),
                None => message is None,
            },
    {
        match payload {
            Some(json) => Some(
                MqttMessage::new(
                    entity.topic(self.settings.homeassistant.base_topic.as_str(), self.node_id.as_str()),
                    json,
                    true,
                    1,
                ),
            ),
            None => None,
        }
    }

    /// The messages that announce the container's entities, given the
    /// description of each sensor and each button (`None` where one could
    /// not be described; that entity is skipped).
    pub fn publish(
        &self,
        sensor_payloads: &Vec<Option<String>>,
        button_payloads: &Vec<Option<String>>,
    ) -> (messages: Vec<MqttMessage>)
        requires
            sensor_payloads@.len() == self@.sensors.len(),
            button_payloads@.len() == self@.buttons.len(),
        ensures
            messages@.map_values(|m: MqttMessage| m@) == announcement(
                entity_topics(self@),
                sensor_payloads.deep_view() + button_payloads.deep_view(),
            ),
    {
        let ghost topics = entity_topics(self@);
        let ghost payloads = sensor_payloads.deep_view() + button_payloads.deep_view();
        let ghost ns = self.sensors@.len();
        let mut messages: Vec<MqttMessage> = Vec::new();
        let mut i: usize = 0;
        while i < self.sensors.len()
            invariant
                0 <= i <= ns == self@.sensors.len() == sensor_payloads@.len(),
                button_payloads@.len() == self@.buttons.len(),
                topics == entity_topics(self@),
                payloads == sensor_payloads.deep_view() + button_payloads.deep_view(),
                messages@.map_values(|m: MqttMessage| m@) == announcement(
                    topics.take(i as int),
                    payloads.take(i as int),
                ),
            decreases ns - i,
        {
            let payload = match &sensor_payloads[i] {
                Some(p) => Some(p.clone()),
                None => None,
            };
            let message = self.publish_entity(&self.sensors[i], payload);
            let ghost before = messages@.map_values(|m: MqttMessage| m@);
            assert(topics.take(i + 1).drop_last() =~= topics.take(i as int));
            assert(payloads.take(i + 1).drop_last() =~= payloads.take(i as int));
            assert(topics.take(i + 1).last() == topics[i as int]);
            assert(payloads.take(i + 1).last() == payloads[i as int]);
            match message {
                Some(m) => {
                    messages.push(m);
                    assert(messages@.map_values(|m: MqttMessage| m@) =~= before.push(
                        messages@[messages@.len() - 1]@,
                    ));
                },
                None => {},
            }
            i = i + 1;
        }
        let mut j: usize = 0;
        while j < self.buttons.len()
            invariant
                0 <= j <= self@.buttons.len() == button_payloads@.len(),
                ns == self@.sensors.len() == sensor_payloads@.len(),
                topics == entity_topics(self@),
                payloads == sensor_payloads.deep_view() + button_payloads.deep_view(),
                messages@.map_values(|m: MqttMessage| m@) == announcement(
                    topics.take(ns + j),
                    payloads.take(ns + j),
                ),
            decreases self@.buttons.len() - j,
        {
            let payload = match &button_payloads[j] {
                Some(p) => Some(p.clone()),
                None => None,
            };
            let message = self.publish_entity(&self.buttons[j], payload);
            let ghost before = messages@.map_values(|m: MqttMessage| m@);
            assert(topics.take(ns + j + 1).drop_last() =~= topics.take(ns + j));
            assert(payloads.take(ns + j + 1).drop_last() =~= payloads.take(ns + j));
            assert(topics.take(ns + j + 1).last() == topics[ns + j]);
            assert(payloads.take(ns + j + 1).last() == payloads[ns + j]);
            match message {
                Some(m) => {
                    messages.push(m);
                    assert(messages@.map_values(|m: MqttMessage| m@) =~= before.push(
                        messages@[messages@.len() - 1]@,
                    ));
                },
                None => {},
            }
            j = j + 1;
        }
        assert(topics.take(topics.len() as int) =~= topics);
        assert(payloads.take(payloads.len() as int) =~= payloads);
        messages
    }

    /// The message that retracts `entity`: an empty retained message on its
    /// discovery topic.
    pub fn unpublish_entity(&self, entity: &impl Entity) -> (message: MqttMessage)
        ensures
            message@ == discovery_message(
                entity.discovery_topic(self@.discovery_prefix(), self@.node_id),
                Seq::empty(),
            ),
    {
        MqttMessage::new(
            entity.topic(self.settings.homeassistant.base_topic.as_str(), self.node_id.as_str()),
            String::new(),
            true,
            1,
        )
    }

    /// The messages that retract all of the container's entities.
    pub fn unpublish(&self) -> (messages: Vec<MqttMessage>)
        ensures
            messages@.len() == self@.sensors.len() + self@.buttons.len(),
            messages@.map_values(|m: MqttMessage| m@) == retraction(entity_topics(self@)),
    {
        let ghost topics = entity_topics(self@);
        let ghost ns = self.sensors@.len();
        let mut messages: Vec<MqttMessage> = Vec::new();
        let mut i: usize = 0;
        while i < self.sensors.len()
            invariant
                0 <= i <= ns == self@.sensors.len(),
                topics == entity_topics(self@),
                messages@.map_values(|m: MqttMessage| m@) == retraction(topics.take(i as int)),
            decreases ns - i,
        {
            let ghost before = messages@.map_values(|m: MqttMessage| m@);
            messages.push(self.unpublish_entity(&self.sensors[i]));
            assert(topics[i as int] == self@.sensors[i as int].discovery_topic(
                self@.discovery_prefix(),
                self@.node_id,
            ));
            assert(messages@.map_values(|m: MqttMessage| m@) =~= before.push(
                discovery_message(topics[i as int], Seq::empty()),
            ));
            assert(retraction(topics.take(i + 1)) =~= retraction(topics.take(i as int)).push(
                discovery_message(topics[i as int], Seq::empty()),
            ));
            i = i + 1;
        }
        let mut j: usize = 0;
        while j < self.buttons.len()
            invariant
                0 <= j <= self@.buttons.len(),
                ns == self@.sensors.len(),
                topics == entity_topics(self@),
                messages@.map_values(|m: MqttMessage| m@) == retraction(topics.take(ns + j)),
            decreases self@.buttons.len() - j,
        {
            let ghost before = messages@.map_values(|m: MqttMessage| m@);
            messages.push(self.unpublish_entity(&self.buttons[j]));
            assert(topics[ns + j] == self@.buttons[j as int].discovery_topic(
                self@.discovery_prefix(),
                self@.node_id,
            ));
            assert(messages@.map_values(|m: MqttMessage| m@) =~= before.push(
                discovery_message(topics[ns + j], Seq::empty()),
            ));
            assert(retraction(topics.take(ns + j + 1)) =~= retraction(topics.take(ns + j)).push(
                discovery_message(topics[ns + j], Seq::empty()),
            ));
            j = j + 1;
        }
        assert(topics.take(topics.len() as int) =~= topics);
        messages
    }
}

} // verus!
