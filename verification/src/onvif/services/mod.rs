//! The ONVIF services of a camera.

pub mod device;
pub mod duration;
pub mod events;
pub mod imaging;
pub mod media;
pub mod osd;
pub mod ptz;
