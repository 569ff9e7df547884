//! The `config` command: encoder, ISP image controls, OSD overlays, privacy mask
//! and day/night threshold.
//!
//! Everything that sets something reads the live settings first, changes the
//! requested fields alone, and sends the result back: cameras are known to
//! reject settings that lack fields they had.

use vstd::prelude::*;
use crate::configcmd::cmdline::{EncStreamSel, OnOff};

pub mod cmdline;

verus! {

/// A field after an update: what was asked for, or what it was.
pub open spec fn updated<T>(old_value: Option<T>, wanted: Option<T>) -> Option<T> {
    if wanted is Some {
        wanted
    } else {
        old_value
    }
}

/// The length of a group of pictures.
#[derive(Clone, Copy, PartialEq, Eq, Structural, Debug)]
pub struct Gop {
    pub cur: Option<u32>,
    pub min: Option<u32>,
    pub max: Option<u32>,
}

/// The encoder settings of one stream.
#[derive(Debug)]
pub struct EncStream {
    pub bit_rate: Option<u32>,
    pub frame_rate: Option<u32>,
    pub width: Option<u32>,
    pub height: Option<u32>,
    pub video_enc_type: Option<String>,
    pub encoder_type: Option<String>,
    pub encoder_profile: Option<String>,
    pub gop: Option<Gop>,
}

/// The encoder settings of a camera.
#[derive(Debug)]
pub struct Encoder {
    pub main_stream: Option<EncStream>,
    pub sub_stream: Option<EncStream>,
    pub third_stream: Option<EncStream>,
}

/// What to change about an encoder.
#[derive(Debug)]
pub struct EncoderChange {
    pub bitrate: Option<u32>,
    pub framerate: Option<u32>,
    pub width: Option<u32>,
    pub height: Option<u32>,
    pub codec: Option<String>,
    pub encoder_type: Option<String>,
    pub profile: Option<String>,
    pub gop: Option<u32>,
}

/// Settings of a stream about which nothing is known.
pub open spec fn no_stream() -> EncStream {
    EncStream {
        bit_rate: None,
        frame_rate: None,
        width: None,
        height: None,
        video_enc_type: None,
        encoder_type: None,
        encoder_profile: None,
        gop: None,
    }
}

/// The group length after an update.
pub open spec fn updated_gop(gop: Option<Gop>, wanted: Option<u32>) -> Option<Gop> {
    match wanted {
        None => gop,
        Some(v) => match gop {
            Some(g) => Some(Gop { cur: Some(v), ..g }),
            None => Some(Gop { cur: Some(v), min: None, max: None }),
        },
    }
}

/// The settings of a stream after an update. A stream without settings gets
/// some.
pub open spec fn updated_stream(stream: Option<EncStream>, change: EncoderChange) -> EncStream {
    let s = match stream {
        Some(s) => s,
        None => no_stream(),
    };
    EncStream {
        bit_rate: updated(s.bit_rate, change.bitrate),
        frame_rate: updated(s.frame_rate, change.framerate),
        width: updated(s.width, change.width),
        height: updated(s.height, change.height),
        video_enc_type: updated(s.video_enc_type, change.codec),
        encoder_type: updated(s.encoder_type, change.encoder_type),
        encoder_profile: updated(s.encoder_profile, change.profile),
        gop: updated_gop(s.gop, change.gop),
    }
}

fn update_stream(stream: Option<EncStream>, change: EncoderChange) -> (new: EncStream)
    ensures
        new == updated_stream(stream, change),
{
    let mut new: EncStream = match stream {
        Some(s) => s,
        None => EncStream {
            bit_rate: None,
            frame_rate: None,
            width: None,
            height: None,
            video_enc_type: None,
            encoder_type: None,
            encoder_profile: None,
            gop: None,
        },
    };
    if change.bitrate.is_some() {
        new.bit_rate = change.bitrate;
    }
    if change.framerate.is_some() {
        new.frame_rate = change.framerate;
    }
    if change.width.is_some() {
        new.width = change.width;
    }
    if change.height.is_some() {
        new.height = change.height;
    }
    if change.codec.is_some() {
        new.video_enc_type = change.codec;
    }
    if change.encoder_type.is_some() {
        new.encoder_type = change.encoder_type;
    }
    if change.profile.is_some() {
        new.encoder_profile = change.profile;
    }
    match change.gop {
        Some(v) => {
            new.gop = match new.gop {
                Some(g) => Some(Gop { cur: Some(v), ..g }),
                None => Some(Gop { cur: Some(v), min: None, max: None }),
            };
        },
        None => {},
    }
    new
}

/// The encoder settings of a camera after an update of one stream. The others
/// stay as they are.
pub open spec fn updated_encoder(
    encoder: Encoder,
    stream: EncStreamSel,
    change: EncoderChange,
) -> Encoder {
    match stream {
        EncStreamSel::Main => Encoder {
            main_stream: Some(updated_stream(encoder.main_stream, change)),
            ..encoder
        },
        EncStreamSel::Sub => Encoder {
            sub_stream: Some(updated_stream(encoder.sub_stream, change)),
            ..encoder
        },
        EncStreamSel::Third => Encoder {
            third_stream: Some(updated_stream(encoder.third_stream, change)),
            ..encoder
        },
    }
}

/// Update the encoder settings of one stream. Fields that are not given are left
/// unchanged.
pub fn update_encoder(encoder: Encoder, stream: EncStreamSel, change: EncoderChange) -> (new: Encoder)
    ensures
        new == updated_encoder(encoder, stream, change),
{
    match stream {
        EncStreamSel::Main => Encoder {
            main_stream: Some(update_stream(encoder.main_stream, change)),
            sub_stream: encoder.sub_stream,
            third_stream: encoder.third_stream,
        },
        EncStreamSel::Sub => Encoder {
            main_stream: encoder.main_stream,
            sub_stream: Some(update_stream(encoder.sub_stream, change)),
            third_stream: encoder.third_stream,
        },
        EncStreamSel::Third => Encoder {
            main_stream: encoder.main_stream,
            sub_stream: encoder.sub_stream,
            third_stream: Some(update_stream(encoder.third_stream, change)),
        },
    }
}

/// An update that asks for nothing changes nothing about a stream that has
/// settings.
pub proof fn law_empty_updates_keep_a_stream(s: EncStream, change: EncoderChange)
    requires
        change.bitrate is None,
        change.framerate is None,
        change.width is None,
        change.height is None,
        change.codec is None,
        change.encoder_type is None,
        change.profile is None,
        change.gop is None,
    ensures
        updated_stream(Some(s), change) == s,
{
}

/// Making the same update twice does what making it once does.
pub proof fn law_encoder_updates_settle(
    encoder: Encoder,
    stream: EncStreamSel,
    change: EncoderChange,
)
    ensures
        updated_encoder(updated_encoder(encoder, stream, change), stream, change)
            == updated_encoder(encoder, stream, change),
{
}

/// A switch after an update, as the number that a camera takes for it.
pub open spec fn switched(old_value: Option<u32>, wanted: Option<OnOff>) -> Option<u32> {
    match wanted {
        Some(s) => Some(
            if s == OnOff::On {
                1
            } else {
                0
            },
        ),
        None => old_value,
    }
}

/// The image settings of a camera.
#[derive(Clone, Copy, PartialEq, Eq, Structural, Debug)]
pub struct VideoInput {
    pub bright: Option<u32>,
    pub contrast: Option<u32>,
    pub saturation: Option<u32>,
    pub hue: Option<u32>,
    pub sharpen: Option<u32>,
}

/// The image settings after a change: what is not given stays.
pub open spec fn updated_image(
    settings: VideoInput,
    brightness: Option<u32>,
    contrast: Option<u32>,
    saturation: Option<u32>,
    hue: Option<u32>,
    sharpness: Option<u32>,
) -> VideoInput {
    VideoInput {
        bright: updated(settings.bright, brightness),
        contrast: updated(settings.contrast, contrast),
        saturation: updated(settings.saturation, saturation),
        hue: updated(settings.hue, hue),
        sharpen: updated(settings.sharpen, sharpness),
    }
}

/// The image settings of a camera after an update. Fields that are not given are left unchanged.
pub fn update_image(settings: VideoInput, brightness: Option<u32>, contrast: Option<u32>, saturation: Option<u32>, hue: Option<u32>, sharpness: Option<u32>) -> (new: VideoInput)
    ensures
        new == updated_image(settings, brightness, contrast, saturation, hue, sharpness),
{
    let mut new = settings;
    if brightness.is_some() {
        new.bright = brightness;
    }
    if contrast.is_some() {
        new.contrast = contrast;
    }
    if saturation.is_some() {
        new.saturation = saturation;
    }
    if hue.is_some() {
        new.hue = hue;
    }
    if sharpness.is_some() {
        new.sharpen = sharpness;
    }
    new
}

/// The date overlay of a camera.
#[derive(Debug)]
pub struct OsdDatetime {
    pub enable: Option<u32>,
    pub position: Option<String>,
}

/// The display of the time after a change: what is not given stays.
pub open spec fn updated_osd_datetime(
    settings: OsdDatetime,
    state: Option<OnOff>,
    position: Option<String>,
) -> OsdDatetime {
    OsdDatetime {
        enable: switched(settings.enable, state),
        position: updated(settings.position, position),
    }
}

/// The date overlay of a camera after an update. Fields that are not given are left unchanged.
pub fn update_osd_datetime(settings: OsdDatetime, state: Option<OnOff>, position: Option<String>) -> (new: OsdDatetime)
    ensures
        new == updated_osd_datetime(settings, state, position),
{
    let mut new = settings;
    match state {
        Some(s) => {
            new.enable = Some(s.as_u32());
        },
        None => {},
    }
    if position.is_some() {
        new.position = position;
    }
    new
}

/// The name overlay of a camera.
#[derive(Debug)]
pub struct OsdChannelName {
    pub enable: Option<u32>,
    pub name: Option<String>,
    pub position: Option<String>,
}

/// The display of the name after a change: what is not given stays.
pub open spec fn updated_osd_name(
    settings: OsdChannelName,
    state: Option<OnOff>,
    name: Option<String>,
    position: Option<String>,
) -> OsdChannelName {
    OsdChannelName {
        enable: switched(settings.enable, state),
        name: updated(settings.name, name),
        position: updated(settings.position, position),
    }
}

/// The name overlay of a camera after an update. Fields that are not given are left unchanged.
pub fn update_osd_name(settings: OsdChannelName, state: Option<OnOff>, name: Option<String>, position: Option<String>) -> (new: OsdChannelName)
    ensures
        new == updated_osd_name(settings, state, name, position),
{
    let mut new = settings;
    match state {
        Some(s) => {
            new.enable = Some(s.as_u32());
        },
        None => {},
    }
    if name.is_some() {
        new.name = name;
    }
    if position.is_some() {
        new.position = position;
    }
    new
}

/// The day/night switch of a camera.
#[derive(Debug)]
pub struct DayNight {
    pub mode: Option<String>,
    pub threshold: Option<u32>,
}

/// The day and night settings after a change: what is not given stays.
pub open spec fn updated_day_night(
    settings: DayNight,
    mode: Option<String>,
    threshold: Option<u32>,
) -> DayNight {
    DayNight {
        mode: updated(settings.mode, mode),
        threshold: updated(settings.threshold, threshold),
    }
}

/// The day/night switch of a camera after an update. Fields that are not given are left unchanged.
pub fn update_day_night(settings: DayNight, mode: Option<String>, threshold: Option<u32>) -> (new: DayNight)
    ensures
        new == updated_day_night(settings, mode, threshold),
{
    let mut new = settings;
    if mode.is_some() {
        new.mode = mode;
    }
    if threshold.is_some() {
        new.threshold = threshold;
    }
    new
}

/// Each setting of a stream that is given is taken, and each that is not stays.
pub proof fn law_stream_settings_change_one_by_one(s: EncStream, change: EncoderChange)
    ensures
        change.bitrate is Some ==> updated_stream(Some(s), change).bit_rate == change.bitrate,
        change.bitrate is None ==> updated_stream(Some(s), change).bit_rate == s.bit_rate,
        change.framerate is Some ==> updated_stream(Some(s), change).frame_rate == change.framerate,
        change.framerate is None ==> updated_stream(Some(s), change).frame_rate == s.frame_rate,
        change.width is Some ==> updated_stream(Some(s), change).width == change.width,
        change.width is None ==> updated_stream(Some(s), change).width == s.width,
        change.height is Some ==> updated_stream(Some(s), change).height == change.height,
        change.height is None ==> updated_stream(Some(s), change).height == s.height,
        change.codec is Some ==> updated_stream(Some(s), change).video_enc_type == change.codec,
        change.codec is None ==> updated_stream(Some(s), change).video_enc_type == s.video_enc_type,
        change.encoder_type is Some ==> updated_stream(Some(s), change).encoder_type == change.encoder_type,
        change.encoder_type is None ==> updated_stream(Some(s), change).encoder_type == s.encoder_type,
        change.profile is Some ==> updated_stream(Some(s), change).encoder_profile == change.profile,
        change.profile is None ==> updated_stream(Some(s), change).encoder_profile == s.encoder_profile,
        change.gop is None ==> updated_stream(Some(s), change).gop == s.gop,
        change.gop matches Some(v) ==> (updated_stream(Some(s), change).gop matches Some(g) && g.cur
            == Some(v) && (s.gop matches Some(before) ==> g.min == before.min && g.max
            == before.max) && (s.gop is None ==> g.min is None && g.max is None)),
{
}

/// A change reaches the stream it is for and no other.
pub proof fn law_changes_reach_their_stream_alone(encoder: Encoder, change: EncoderChange)
    ensures
        updated_encoder(encoder, EncStreamSel::Main, change).main_stream == Some(
            updated_stream(encoder.main_stream, change),
        ),
        updated_encoder(encoder, EncStreamSel::Main, change).sub_stream == encoder.sub_stream,
        updated_encoder(encoder, EncStreamSel::Main, change).third_stream == encoder.third_stream,
        updated_encoder(encoder, EncStreamSel::Sub, change).sub_stream == Some(
            updated_stream(encoder.sub_stream, change),
        ),
        updated_encoder(encoder, EncStreamSel::Sub, change).main_stream == encoder.main_stream,
        updated_encoder(encoder, EncStreamSel::Sub, change).third_stream == encoder.third_stream,
        updated_encoder(encoder, EncStreamSel::Third, change).third_stream == Some(
            updated_stream(encoder.third_stream, change),
        ),
        updated_encoder(encoder, EncStreamSel::Third, change).main_stream == encoder.main_stream,
        updated_encoder(encoder, EncStreamSel::Third, change).sub_stream == encoder.sub_stream,
{
}

/// Each setting of the image that is given is taken, and each that is not stays.
pub proof fn law_image_settings_change_one_by_one(
    settings: VideoInput,
    brightness: Option<u32>,
    contrast: Option<u32>,
    saturation: Option<u32>,
    hue: Option<u32>,
    sharpness: Option<u32>,
)
    ensures
        brightness is Some ==> updated_image(settings, brightness, contrast, saturation, hue, sharpness).bright == brightness,
        brightness is None ==> updated_image(settings, brightness, contrast, saturation, hue, sharpness).bright == settings.bright,
        contrast is Some ==> updated_image(settings, brightness, contrast, saturation, hue, sharpness).contrast == contrast,
        contrast is None ==> updated_image(settings, brightness, contrast, saturation, hue, sharpness).contrast == settings.contrast,
        saturation is Some ==> updated_image(settings, brightness, contrast, saturation, hue, sharpness).saturation == saturation,
        saturation is None ==> updated_image(settings, brightness, contrast, saturation, hue, sharpness).saturation == settings.saturation,
        hue is Some ==> updated_image(settings, brightness, contrast, saturation, hue, sharpness).hue == hue,
        hue is None ==> updated_image(settings, brightness, contrast, saturation, hue, sharpness).hue == settings.hue,
        sharpness is Some ==> updated_image(settings, brightness, contrast, saturation, hue, sharpness).sharpen == sharpness,
        sharpness is None ==> updated_image(settings, brightness, contrast, saturation, hue, sharpness).sharpen == settings.sharpen,
{
}

/// Each setting of a display, and of day and night, that is given is taken, and each that
/// is not stays; a display is switched on by a one and off by a zero.
pub proof fn law_other_settings_change_one_by_one(
    stamp: OsdDatetime,
    label: OsdChannelName,
    day: DayNight,
    name: String,
    position: String,
    mode: String,
    threshold: u32,
)
    ensures
        updated_osd_datetime(stamp, Some(OnOff::On), None) == (OsdDatetime {
            enable: Some(1),
            ..stamp
        }),
        updated_osd_datetime(stamp, Some(OnOff::Off), None) == (OsdDatetime {
            enable: Some(0),
            ..stamp
        }),
        updated_osd_datetime(stamp, None, Some(position)) == (OsdDatetime {
            position: Some(position),
            ..stamp
        }),
        updated_osd_name(label, Some(OnOff::On), None, None) == (OsdChannelName {
            enable: Some(1),
            ..label
        }),
        updated_osd_name(label, Some(OnOff::Off), None, None) == (OsdChannelName {
            enable: Some(0),
            ..label
        }),
        updated_osd_name(label, None, Some(name), None) == (OsdChannelName {
            name: Some(name),
            ..label
        }),
        updated_osd_name(label, None, None, Some(position)) == (OsdChannelName {
            position: Some(position),
            ..label
        }),
        updated_day_night(day, Some(mode), None) == (DayNight { mode: Some(mode), ..day }),
        updated_day_night(day, None, Some(threshold)) == (DayNight {
            threshold: Some(threshold),
            ..day
        }),
{
}

} // verus!
