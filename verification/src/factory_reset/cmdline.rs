//! The command line of the `factory-reset` command.

use vstd::prelude::*;

verus! {

/// Restore the camera to factory defaults. This is destructive, which is why an
/// acknowledgement is required.
#[derive(Debug)]
pub struct Opt {
    /// Name of the camera (must match a `[[cameras]]` entry in the config).
    pub camera: String,
    /// Required acknowledgement that you understand this command is destructive.
    pub yes_i_am_sure: bool,
    /// If set, ask the camera to preserve its network configuration (IP, Wi-Fi
    /// credentials) across the reset.
    pub keep_network: bool,
}

} // verus!
