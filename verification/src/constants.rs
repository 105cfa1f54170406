use vstd::prelude::*;

verus! {

/// Sub-topic, under the MQTT base topic, of the application's availability.
pub const AVAILABILITY_TOPIC: &'static str = "availability";

/// Sub-topic, under a container's state topic, that takes commands.
pub const SET_STATE_TOPIC: &'static str = "set";

} // verus!
