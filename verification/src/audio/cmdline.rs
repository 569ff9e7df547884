//! The command line of the `audio` command.

use vstd::prelude::*;

verus! {

/// The audio command queries or sets the audio configuration.
#[derive(Debug)]
pub struct Opt {
    /// The name of the camera. Must be a name in the config
    pub camera: String,
    /// Audio channel id.
    pub channel: u8,
    /// Sub-command (read by default).
    pub action: Option<Action>,
}

/// What to do with the audio configuration.
#[derive(Clone, Copy, PartialEq, Eq, Structural, Debug)]
pub enum Action {
    /// Print the current audio configuration as XML.
    Cfg,
    /// Set the speaker volume (0-100).
    SetSpeaker {
        /// Volume, typically 0-100.
        volume: u8,
    },
    /// Set the microphone volume (0-100).
    SetMic {
        /// Volume, typically 0-100.
        volume: u8,
    },
    /// Print the noise-reduction configuration as XML.
    Noise,
    /// Set the noise-reduction level (`0` to disable).
    SetNoise {
        /// Noise reduction intensity.
        level: u8,
    },
}

} // verus!
