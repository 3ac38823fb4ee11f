# govee2mqtt

The decisions behind two kinds of Home Assistant entities that a bridge shows for Govee devices
over MQTT: switches for toggle capabilities, and selects for mode capabilities. They are written
in Verus, and each function is proved to meet its contract.

- `src/hass_mqtt/switch.rs`: what a toggle's state is, from all that is known of a device, and
  what a switch publishes. `switch_laws.rs` states what follows whatever a device reports.
- `src/hass_mqtt/capability_mode.rs`: labels and values of a mode, what a select publishes, and
  what a commanded label asks of the device. `mode_laws.rs` states what follows.
- `src/service/`: what is known of a device, and the names and topics made from it.
- `src/platform_api.rs`: metadata and reports of Govee's platform API.
- `src/json.rs`: what is believed, without proof, of `serde_json::Value`.
- `src/text.rs`: what is believed, without proof, of text in the standard library.
- `app/`: the asynchronous side, which talks to the broker and to the device store.
