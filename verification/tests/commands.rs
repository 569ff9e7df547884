//! What the commands of the command line ask for and print.

use neolink::ai::cmdline::SmartKind;
use neolink::ai::{change_alarm, cry_line, cry_set_line, zone_failure, zone_kinds, AiAlarm, SmartAiKind};
use neolink::chime::{
    chime_line, chime_list, parse_tone, silent_line, silent_request, Chime, SilentRequest,
    SilentWindow,
};
use neolink::configcmd::cmdline::{EncStreamSel, OnOff};
use neolink::configcmd::{
    update_day_night, update_encoder, update_image, update_osd_datetime, update_osd_name,
    DayNight, EncStream, Encoder, EncoderChange, Gop, OsdChannelName, OsdDatetime, VideoInput,
};
use neolink::factory_reset::cmdline::Opt;
use neolink::factory_reset::{confirm, REFUSAL};
use neolink::io::io_line;

#[test]
fn zones_of_one_detector_or_of_all() {
    assert_eq!(zone_kinds(Some(SmartKind::Loitering)), vec![SmartAiKind::Loitering]);
    let all = zone_kinds(None);
    assert_eq!(all.len(), 5);
    assert_eq!(all[0].label(), "crossline");
    assert_eq!(zone_failure(SmartAiKind::Crossline, "no"), "<!-- crossline: no -->");
}

#[test]
fn an_alarm_changes_only_where_asked() {
    let now = AiAlarm { sensitivity: Some(50), stay_time: None };
    assert_eq!(change_alarm(now, None, None), None);
    assert_eq!(
        change_alarm(now, None, Some(4)),
        Some(AiAlarm { sensitivity: Some(50), stay_time: Some(4) })
    );
    assert_eq!(cry_set_line(3), "Cry detection sensitivity set to 3");
    assert_eq!(cry_line(Some(3)), "Cry detection sensitivity: 3");
    assert_ne!(cry_line(None), cry_line(Some(0)));
}

#[test]
fn tones_are_numbers_or_names() {
    assert_eq!(parse_tone("7", Some(1)), Some(7));
    assert_eq!(parse_tone("waterdrop", Some(1)), Some(1));
    assert_eq!(parse_tone("racket", None), None);
}

#[test]
fn a_silent_window_is_seen_or_set() {
    assert!(matches!(silent_request(None, None, None), Ok(SilentRequest::Get)));
    let set = silent_request(Some(127), Some("22:00".to_string()), Some("07:00".to_string()));
    assert!(matches!(set, Ok(SilentRequest::Change(_))));
    assert!(silent_request(Some(127), None, None).is_err());
    let window = SilentWindow {
        weekday_mask: 127,
        start_time: "22:00".to_string(),
        end_time: "07:00".to_string(),
    };
    assert_eq!(
        silent_line(3, &window),
        "Silent window for chime 3: weekday_mask=127 start=22:00 end=07:00"
    );
}

#[test]
fn chimes_are_listed_in_columns() {
    let chime = Chime {
        device_id: 12,
        name: Some("Hall".to_string()),
        vol_level: Some(3),
        led_state: None,
        music_id: Some(1),
    };
    assert_eq!(chime_line(&chime), "12   Hall                 3   -   1");
    let lines = chime_list(&vec![chime]);
    assert_eq!(lines.len(), 3);
    assert_eq!(chime_list(&vec![]).len(), 1);
}

fn nothing() -> EncoderChange {
    EncoderChange {
        bitrate: None,
        framerate: None,
        width: None,
        height: None,
        codec: None,
        encoder_type: None,
        profile: None,
        gop: None,
    }
}

#[test]
fn encoder_settings_that_are_not_given_stay() {
    let stream = EncStream {
        bit_rate: Some(4096),
        frame_rate: Some(25),
        width: Some(1920),
        height: Some(1080),
        video_enc_type: Some("h264".to_string()),
        encoder_type: None,
        encoder_profile: None,
        gop: Some(Gop { cur: Some(2), min: Some(1), max: Some(4) }),
    };
    let encoder = Encoder { main_stream: Some(stream), sub_stream: None, third_stream: None };
    let change = EncoderChange { bitrate: Some(8192), gop: Some(3), ..nothing() };
    let new = update_encoder(encoder, EncStreamSel::Main, change);
    let main = new.main_stream.as_ref().unwrap();
    assert_eq!((main.bit_rate, main.frame_rate), (Some(8192), Some(25)));
    assert_eq!(main.gop, Some(Gop { cur: Some(3), min: Some(1), max: Some(4) }));
    assert!(new.sub_stream.is_none());
    let new = update_encoder(new, EncStreamSel::Sub, EncoderChange { width: Some(640), ..nothing() });
    assert_eq!(new.sub_stream.as_ref().unwrap().width, Some(640));
    assert_eq!(new.main_stream.as_ref().unwrap().bit_rate, Some(8192));
}

#[test]
fn other_settings_that_are_not_given_stay() {
    let image = VideoInput { bright: Some(1), contrast: Some(2), saturation: Some(3), hue: Some(4), sharpen: Some(5) };
    let new = update_image(image, Some(10), None, None, None, Some(50));
    assert_eq!((new.bright, new.contrast, new.sharpen), (Some(10), Some(2), Some(50)));
    let stamp = OsdDatetime { enable: Some(1), position: None };
    let new = update_osd_datetime(stamp, Some(OnOff::Off), None);
    assert_eq!((new.enable, new.position), (Some(0), None));
    let name = OsdChannelName { enable: None, name: Some("a".to_string()), position: None };
    let new = update_osd_name(name, None, Some("b".to_string()), None);
    assert_eq!((new.enable, new.name.as_deref()), (None, Some("b")));
    let mode = DayNight { mode: Some("auto".to_string()), threshold: Some(5) };
    let new = update_day_night(mode, None, Some(9));
    assert_eq!((new.mode.as_deref(), new.threshold), (Some("auto"), Some(9)));
    assert_eq!(OnOff::On.as_u32(), 1);
}

#[test]
fn a_reset_needs_a_word_of_confirmation() {
    let mut opt = Opt { camera: "front".to_string(), yes_i_am_sure: false, keep_network: true };
    assert_eq!(confirm(&opt), Err(REFUSAL));
    opt.yes_i_am_sure = true;
    assert_eq!(confirm(&opt), Ok(true));
}

#[test]
fn inputs_are_printed() {
    assert_eq!(io_line(2, true), "io 2 on");
    assert_eq!(io_line(0, false), "io 0 off");
}
