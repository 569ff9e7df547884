//! The command line of the `config` command.

use vstd::prelude::*;

verus! {

/// The config command exposes the camera's stream / image / overlay /
/// privacy-mask / day-night configuration surface.
///
/// All settings use a read-modify-write strategy: every `set` first fetches the
/// live settings from the camera and only changes the requested fields.
#[derive(Debug)]
pub struct Opt {
    /// The name of the camera. Must be a name in the config
    pub camera: String,
    pub cmd: ConfigCmd,
}

/// Which part of the configuration surface to operate on.
#[allow(inconsistent_fields)]
#[derive(Debug)]
pub enum ConfigCmd {
    /// Encoder (codec/resolution/bitrate/framerate/GOP)
    Encoder { action: EncoderAction },
    /// ISP image controls (brightness/contrast/saturation/sharpness/hue)
    Image { action: ImageAction },
    /// On-screen-display overlays (datetime + channel name)
    Osd { action: OsdAction },
    /// Privacy mask regions
    PrivacyMask { action: PrivacyMaskAction },
    /// Day/Night IR-cut threshold
    DayNight { action: DayNightAction },
}

/// What to do with the encoder.
#[derive(Debug)]
pub enum EncoderAction {
    /// Print the current encoder XML
    Get,
    /// Update one or more encoder fields. Fields you don't pass are left
    /// unchanged.
    Update {
        /// Which stream to mutate (main, sub, third).
        stream: EncStreamSel,
        /// Encoder bitrate (kbps)
        bitrate: Option<u32>,
        /// Frame rate (fps)
        framerate: Option<u32>,
        /// Stream width (px)
        width: Option<u32>,
        /// Stream height (px)
        height: Option<u32>,
        /// Video encoder type (e.g. `h264`, `h265`)
        codec: Option<String>,
        /// Rate-control / encoder type (`cbr`, `vbr`)
        encoder_type: Option<String>,
        /// Encoder profile (`baseline`, `main`, `high`)
        profile: Option<String>,
        /// GOP length (frames)
        gop: Option<u32>,
    },
}

/// Which stream of a camera to change.
#[derive(Clone, Copy, PartialEq, Eq, Structural, Debug)]
pub enum EncStreamSel {
    /// The main stream
    Main,
    /// The sub stream
    Sub,
    /// The third stream (if available)
    Third,
}

/// What to do with the image.
#[derive(Clone, Copy, PartialEq, Eq, Structural, Debug)]
pub enum ImageAction {
    /// Print the current VideoInput XML
    Get,
    /// Update one or more image fields. Fields you don't pass are left
    /// unchanged. Most cameras accept values in the 0..=255 range.
    Update {
        /// Brightness
        brightness: Option<u32>,
        /// Contrast
        contrast: Option<u32>,
        /// Saturation
        saturation: Option<u32>,
        /// Hue
        hue: Option<u32>,
        /// Sharpness
        sharpness: Option<u32>,
    },
    /// Print the full ISP XML (newer cameras only)
    Isp,
}

/// What to do with the overlays.
#[derive(Debug)]
pub enum OsdAction {
    /// Print the current OSD XML
    Get,
    /// Update the datetime overlay
    Datetime {
        /// Enable (`on`) or disable (`off`) the datetime overlay
        state: Option<OnOff>,
        /// Position on the frame (e.g. `upperLeft`, `lowerRight`)
        position: Option<String>,
    },
    /// Update the channel-name overlay
    Name {
        /// Enable (`on`) or disable (`off`) the channel-name overlay
        state: Option<OnOff>,
        /// Channel name text
        name: Option<String>,
        /// Position on the frame (e.g. `upperLeft`, `lowerRight`)
        position: Option<String>,
    },
}

/// What to do with the privacy mask.
#[derive(Clone, Copy, PartialEq, Eq, Structural, Debug)]
pub enum PrivacyMaskAction {
    /// Print the current privacy-mask XML
    Get,
    /// Enable or disable the privacy mask globally.
    Enable {
        /// `on` / `off`
        state: OnOff,
    },
}

/// What to do with the day/night switch.
#[derive(Debug)]
pub enum DayNightAction {
    /// Print the current DayNightSwitch XML
    Get,
    /// Update the day/night switch settings.
    Update {
        /// Switch mode (`auto`, `day`, `night`, `blackAndWhite`)
        mode: Option<String>,
        /// Threshold (0..=100) used in `auto` mode
        threshold: Option<u32>,
    },
}

/// A switch.
#[derive(Clone, Copy, PartialEq, Eq, Structural, Debug)]
pub enum OnOff {
    /// Enable
    On,
    /// Disable
    Off,
}

impl OnOff {
    /// The number that a camera takes for it.
    pub fn as_u32(self) -> (n: u32)
        ensures
            n == (if self == OnOff::On {
                1u32
            } else {
                0u32
            }),
    {
        match self {
            OnOff::On => 1,
            OnOff::Off => 0,
        }
    }
}

} // verus!
