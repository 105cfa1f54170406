use vstd::prelude::*;

verus! {

/// A message to be published on the MQTT broker.
#[derive(Debug)]
pub struct MqttMessage {
    pub topic: String,
    pub payload: String,
    pub retain: bool,
    pub qos: u8,
}

/// The content of an [`MqttMessage`].
pub struct MqttMessageView {
    pub topic: Seq<char>,
    pub payload: Seq<char>,
    pub retain: bool,
    pub qos: u8,
}

impl View for MqttMessage {
    type V = MqttMessageView;

    open spec fn view(&self) -> MqttMessageView {
        MqttMessageView {
            topic: self.topic@,
            payload: self.payload@,
            retain: self.retain,
            qos: self.qos,
        }
    }
}

impl MqttMessage {
    pub fn new(topic: String, payload: String, retain: bool, qos: u8) -> (message: Self)
        ensures
            message@ == (MqttMessageView { topic: topic@, payload: payload@, retain, qos }),
    {
        MqttMessage { topic, payload, retain, qos }
    }
}

} // verus!
