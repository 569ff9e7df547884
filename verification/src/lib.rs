//! The logic of a bridge between Reolink cameras and the standard protocols
//! that other software speaks: MPEG-TS, MQTT, WS-Discovery and ONVIF.
//!
//! Every item carries a contract that Verus proves. Sockets, files, clocks
//! and the camera protocol itself stay outside, in the program around this
//! library.

pub mod ai;
pub mod audio;
pub mod bytes_util;
pub mod camera;
pub mod chime;
pub mod codec;
pub mod common;
pub mod config;
pub mod configcmd;
pub mod factory_reset;
pub mod io;
pub mod mpegts;
pub mod mqtt;
pub mod onvif;
pub mod text;
pub mod time;
pub mod xml;
