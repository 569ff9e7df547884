//! The command line of the `chime` command.

use vstd::prelude::*;

verus! {

/// The chime command controls the doorbell and its wireless chimes.
#[derive(Debug)]
pub struct Opt {
    /// The name of the camera (must be a name in the config)
    pub camera: String,
    pub cmd: ChimeCommand,
}

/// What to do with the chimes.
#[derive(Debug)]
pub enum ChimeCommand {
    /// List the wireless chimes paired with the doorbell.
    List,
    /// Trigger a chime to play a tone.
    Ring {
        /// Wireless chime device id (as reported by `list`)
        device_id: u32,
        /// Tone name (citybird, originaltune, pianokey, loop, attraction,
        /// hophop, goodday, operetta, moonlight, waybackhome) OR a raw
        /// numeric tone id.
        tone: String,
    },
    /// Get or set the silent-window configuration for a chime.
    Silent {
        /// Wireless chime device id
        device_id: u32,
        /// Weekday bitmask: bit 0 = Sunday … bit 6 = Saturday.
        /// Omit to print the current window.
        weekday_mask: Option<u32>,
        /// Start time, HH:MM
        start_time: Option<String>,
        /// End time, HH:MM
        end_time: Option<String>,
    },
    /// Play a pre-recorded quick-reply audio clip stored on the camera.
    QuickReply {
        /// File id of the clip (as configured on the camera)
        file_id: u32,
        /// Playback duration in seconds (0 = camera-determined)
        duration: u32,
        /// Number of times to play
        times: u32,
    },
}

} // verus!
