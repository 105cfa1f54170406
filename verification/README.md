# gantry_crane

The Home Assistant side of a Docker-to-MQTT bridge: every container becomes a
Home Assistant device with sensors (image, state, health, CPU, memory,
network and block I/O) and buttons (start, stop, restart, pause, unpause,
recreate, pull and recreate), announced through MQTT discovery.

- `src/` is the library, verified with Verus: id normalization
  (`homeassistant::entity`), devices, sensors and buttons, the container
  model and the MQTT messages that announce (`publish`) and retract
  (`unpublish`) its entities. The laws it proves stand in
  `homeassistant::entity` (normal form and idempotence of normalization),
  `homeassistant::device` and `homeassistant::container_laws` (entity counts,
  distinct ids and topics, retraction of every announced topic).
- `app/` encodes the discovery documents as JSON with serde and sends the
  messages over a channel, logging failures.
- `tests/` runs the library on concrete values.
