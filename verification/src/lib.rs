//! Decisions behind the Home Assistant entities of a Govee to MQTT bridge.

pub mod hass_mqtt;
pub mod json;
pub mod platform_api;
pub mod search;
pub mod service;
pub mod text;
