//! What the subsystems share.

pub mod backoff;
pub mod camthread;
