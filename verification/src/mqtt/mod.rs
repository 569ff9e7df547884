//! The bridge between cameras and an MQTT broker.
//!
//! Topics are prefixed with `neolink/{CAMERANAME}`. Control messages arrive
//! under `control/`, questions under `query/`, and what the camera is doing is
//! published under `status/`.

pub mod listener;
pub mod messages;
pub mod mqttc;
pub mod reload;
pub mod secrets;
