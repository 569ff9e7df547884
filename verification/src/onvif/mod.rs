//! An ONVIF device for every camera.

pub mod capabilities;
pub mod cmdline;
pub mod discovery;
pub mod events;
pub mod server;
pub mod services;
pub mod snapshot;
pub mod soap;
pub mod state;
pub mod supervise;
