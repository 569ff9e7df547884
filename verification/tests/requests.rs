//! What requests carry, and what becomes of it.

use neolink::camera::LightState;
use neolink::config::AudioFormat;
use neolink::mqtt::messages::{plan_awake, Command, Plan};
use neolink::onvif::capabilities::CameraCapabilities;
use neolink::onvif::services::device::{
    set_relay, state_asked, utc_of, ClockFields, DeviceCommand, DeviceFacts, SystemGeneral,
};
use neolink::onvif::services::events::pull_asked;
use neolink::onvif::services::imaging::{
    check_token, choose_focus, set_settings, ImagingCommand, ImagingFacts,
};
use neolink::onvif::services::media::{
    reply_media, select_descs, MediaFacts, MediaRequest, StreamDesc,
};
use neolink::onvif::services::osd::{set_osd, show};
use neolink::onvif::services::ptz::{
    answer, choose_slot, read_request, stop_flags, token_needs_presets, Axis, Motion, Preset,
    PtzCommand, PtzFacts, PtzRequest,
};
use neolink::onvif::soap::{digest_matches, FaultCode, UserTable};
use neolink::onvif::state::{DeviceUuid, OnvifStream};
use neolink::time::Timestamp;

/// 2026-08-09 07:30:05 UTC.
const NOW: Timestamp = Timestamp { secs: 1_786_260_605, nanos: 0 };

const FULL: CameraCapabilities = CameraCapabilities {
    pan_tilt: true,
    zoom: true,
    presets: true,
    preset_write: true,
    audio: true,
    led_ctrl: true,
    floodlight: true,
    focus: true,
    osd: true,
};

const STILL: Motion = Motion {
    pan: Axis { matters: false, positive: false, zero: true },
    tilt: Axis { matters: false, positive: false, zero: true },
    zooms: false,
    zoom_in: false,
};

fn text(t: &str) -> Option<String> {
    Some(t.to_string())
}

fn nothing() -> PtzRequest {
    PtzRequest {
        zoom_given: false,
        stop_pan_tilt: None,
        stop_zoom: None,
        preset_token: None,
        preset_name: None,
    }
}

fn move_answer(action: &str, request: &PtzRequest) -> Result<Vec<PtzCommand>, (FaultCode, String)> {
    let presets = Ok(vec![Preset { id: 0, name: text("home") }, Preset { id: 1, name: None }]);
    let facts = PtzFacts {
        cam_name: "cam",
        caps: FULL,
        motion: STILL,
        presets: &presets,
        zoom_position: None,
        now: NOW,
    };
    match answer(&facts, action, request) {
        Ok(a) => Ok(a.commands),
        Err(f) => Err((f.code, f.reason)),
    }
}

#[test]
fn a_preset_without_a_token_takes_a_free_slot() {
    let commands = move_answer("SetPreset", &nothing()).unwrap();
    assert!(matches!(&commands[..], [PtzCommand::SetPreset(2, name)] if name == "preset"));
    let commands = move_answer(
        "SetPreset",
        &PtzRequest { preset_token: text("preset_9"), preset_name: text("gate"), ..nothing() },
    )
    .unwrap();
    assert!(matches!(&commands[..], [PtzCommand::SetPreset(9, name)] if name == "gate"));
}

#[test]
fn a_preset_to_go_to_has_to_be_named() {
    let (_, reason) = move_answer("GotoPreset", &nothing()).unwrap_err();
    assert_eq!(reason, "Missing PresetToken");
    let (_, reason) =
        move_answer("GotoPreset", &PtzRequest { preset_token: text("den"), ..nothing() })
            .unwrap_err();
    assert_eq!(reason, "Unknown preset token 'den'");
}

#[test]
fn an_absolute_move_without_a_zoom_does_nothing() {
    assert!(move_answer("AbsoluteMove", &nothing()).unwrap().is_empty());
    let commands =
        move_answer("AbsoluteMove", &PtzRequest { zoom_given: true, ..nothing() }).unwrap();
    assert!(matches!(&commands[..], [PtzCommand::ZoomTo]));
}

#[test]
fn a_request_is_read_as_it_is_written() {
    let r = read_request(
        "<Stop><PanTilt>true</PanTilt><Zoom> false </Zoom><PresetToken>preset_4</PresetToken>\
<Position><Zoom x=\"0.5\"/></Position></Stop>",
    );
    assert!(r.zoom_given);
    assert_eq!(r.stop_pan_tilt.as_deref(), Some("true"));
    assert!(r.stop_zoom.is_some());
    assert_eq!(r.preset_token.as_deref(), Some("preset_4"));
    assert!(r.preset_name.is_none());
}

#[test]
fn both_axes_stop_unless_one_is_named() {
    assert_eq!(stop_flags(&None, &None), (true, true));
    assert_eq!(stop_flags(&text(" TRUE "), &None), (true, false));
    assert_eq!(stop_flags(&text("false"), &text("true")), (false, true));
}

#[test]
fn presets_are_read_only_for_what_needs_them() {
    assert!(token_needs_presets(&FULL, "SetPreset", None));
    assert!(!token_needs_presets(&FULL, "SetPreset", text("preset_3")));
    assert!(token_needs_presets(&FULL, "GetPresets", None));
    assert!(!token_needs_presets(&FULL, "Stop", None));
}

#[test]
fn a_slot_is_refused_when_presets_cannot_be_read() {
    let presets: Result<Vec<Preset>, String> = Err("offline".to_string());
    let facts = PtzFacts {
        cam_name: "cam",
        caps: FULL,
        motion: STILL,
        presets: &presets,
        zoom_position: None,
        now: NOW,
    };
    assert_eq!(choose_slot(&facts, &text("preset_5")).unwrap(), 5);
    assert_eq!(choose_slot(&facts, &None).unwrap_err().reason, "offline");
}

fn clock(fields: [&str; 6]) -> Option<i64> {
    utc_of(&ClockFields {
        year: text(fields[0]),
        month: text(fields[1]),
        day: text(fields[2]),
        hour: text(fields[3]),
        minute: text(fields[4]),
        second: text(fields[5]),
    })
}

#[test]
fn a_clock_is_set_from_its_fields() {
    assert_eq!(clock(["2026", "8", " 9 ", "7", "30", "5"]), Some(NOW.secs));
    assert_eq!(clock(["1970", "1", "1", "0", "0", "0"]), Some(0));
    assert_eq!(clock(["2026", "2", "30", "0", "0", "0"]), None);
    assert_eq!(clock(["2026", "x", "3", "0", "0", "0"]), None);
}

#[test]
fn a_relay_takes_only_two_states() {
    assert!(state_asked(text(" active ")).unwrap());
    assert!(!state_asked(text("inactive")).unwrap());
    assert_eq!(state_asked(None).unwrap_err().reason, "Missing LogicalState");
    assert_eq!(
        state_asked(text("on")).unwrap_err().reason,
        "LogicalState must be 'active' or 'inactive', got 'on'"
    );
}

#[test]
fn a_relay_is_driven_by_its_token() {
    let uuid = DeviceUuid { bytes: [7; 16] };
    let table = UserTable::new();
    let facts = DeviceFacts {
        cam_name: "cam",
        uuid: &uuid,
        permitted_users: &None,
        users: &table,
        caps: FULL,
        version: None,
        clock: None,
        now: NOW,
        authority: Err("no address"),
        host: Err("no address"),
    };
    let done = set_relay(&facts, text("relay_status_led"), text("active")).unwrap();
    assert!(matches!(done.command, Some(DeviceCommand::SetStatusLed(true))));
    let refused = set_relay(&facts, text("relay_gate"), text("active")).unwrap_err();
    assert_eq!(refused.reason, "Unknown relay output token 'relay_gate'");
    let refused = set_relay(&facts, None, None).unwrap_err();
    assert_eq!(refused.reason, "Missing RelayOutputToken");
}

#[test]
fn a_pull_is_bounded() {
    assert_eq!(pull_asked(None, None), (1_000, 16));
    assert_eq!(pull_asked(text("PT5S"), text(" 3 ")), (5_000, 3));
    assert_eq!(pull_asked(text("PT2H"), text("0")), (60_000, 1));
    assert_eq!(pull_asked(text("soon"), text("5000")), (1_000, 1_024));
    assert_eq!(pull_asked(None, text("many")), (1_000, 16));
}

#[test]
fn the_focus_goes_to_a_position_first() {
    let m = choose_focus(false, text("12"), text("3")).unwrap();
    assert!(!m.relative);
    assert_eq!(m.amount, "12");
    assert!(choose_focus(false, None, text("3")).unwrap().relative);
    assert_eq!(
        choose_focus(false, None, None).unwrap_err().reason,
        "Move needs an Absolute Position or a Relative Distance"
    );
    assert!(choose_focus(true, text("12"), None).is_err());
}

#[test]
fn a_sensor_has_two_tokens() {
    assert!(check_token("cam", text("vsrc_cam")).is_ok());
    assert!(check_token("cam", text("vs_cam")).is_ok());
    assert_eq!(
        check_token("cam", text("vs_other")).unwrap_err().reason,
        "Unknown VideoSourceToken 'vs_other'"
    );
    assert_eq!(check_token("cam", None).unwrap_err().reason, "Missing VideoSourceToken");
}

#[test]
fn only_a_filter_mode_is_written() {
    let facts = ImagingFacts { cam_name: "cam", caps: FULL, led_state: None, focus: None };
    assert!(set_settings(&facts, None).unwrap().command.is_none());
    assert!(matches!(
        set_settings(&facts, text("ON")).unwrap().command,
        Some(ImagingCommand::SetIrLed(LightState::Off))
    ));
    assert_eq!(
        set_settings(&facts, text("DIM")).unwrap_err().reason,
        "IrCutFilter must be ON, OFF or AUTO, got 'DIM'"
    );
}

#[test]
fn an_osd_is_set_from_its_value() {
    let general = || Ok(SystemGeneral::default());
    let new = set_osd(general(), "osd_name", text("Gate"), None).unwrap();
    assert_eq!(new.device_name.as_deref(), Some("Gate"));
    assert_eq!(
        set_osd(general(), "osd_name", text("  "), None).unwrap_err().reason,
        "The camera name cannot be empty"
    );
    let new = set_osd(general(), "osd_datetime", None, text("MM/dd/yyyy")).unwrap();
    assert_eq!(new.osd_format.as_deref(), Some("MDY"));
    assert!(set_osd(general(), "osd_datetime", text("Gate"), None).is_err());
    assert_eq!(
        set_osd(general(), "osd_logo", None, None).unwrap_err().reason,
        "Unknown OSD token 'osd_logo'"
    );
    assert_eq!(
        set_osd(Err("offline".to_string()), "osd_name", None, None).unwrap_err().reason,
        "offline"
    );
}

#[test]
fn an_osd_is_shown_by_its_token() {
    let general = Ok(SystemGeneral::default());
    let shown = show("cam", &general, "GetOSD", text("osd_name")).unwrap();
    assert!(shown.xml.contains("<tt:PlainText>cam</tt:PlainText>"), "{}", shown.xml);
    assert_eq!(
        show("cam", &general, "GetOSD", None).unwrap_err().reason,
        "Missing OSDToken"
    );
    assert_eq!(
        show("cam", &general, "GetOSD", text("osd_logo")).unwrap_err().reason,
        "Unknown OSD token 'osd_logo'"
    );
}

#[test]
fn streams_are_found_by_their_tokens() {
    let one = |stream| StreamDesc {
        stream,
        width: 640,
        height: 480,
        framerate: 15,
        bitrate_kbps: 512,
        framerates: vec![15],
        bitrates: vec![512],
    };
    let descs = vec![one(OnvifStream::Main), one(OnvifStream::Sub)];
    let facts = MediaFacts {
        cam_name: "cam",
        caps: FULL,
        audio_format: AudioFormat::Pcm,
        descs: &descs,
        host: Ok("10.0.0.2"),
        authority: Ok("10.0.0.2:8000"),
        rtsp_port: 8554,
    };
    let none = MediaRequest { profile_token: None, configuration_token: None };
    assert_eq!(select_descs(&facts, &none).unwrap().len(), 2);
    let sub = MediaRequest { profile_token: text("profile_cam_sub"), configuration_token: None };
    let found = select_descs(&facts, &sub).unwrap();
    assert_eq!(found.len(), 1);
    assert!(matches!(found[0].stream, OnvifStream::Sub));
    let body = reply_media(&facts, "GetStreamUri", &sub).unwrap();
    assert!(body.contains("rtsp://10.0.0.2:8554/cam/sub"), "{}", body);
    assert_eq!(
        reply_media(&facts, "GetStreamUri", &none).unwrap_err().reason,
        "Missing ProfileToken"
    );
    let odd = MediaRequest { profile_token: None, configuration_token: text("ve") };
    assert_eq!(
        select_descs(&facts, &odd).unwrap_err().reason,
        "Unknown configuration token 've'"
    );
}

#[test]
fn a_digest_is_fresh_and_the_one_expected() {
    let earlier = |secs: i64| Timestamp { secs: NOW.secs - secs, nanos: 0 };
    assert!(digest_matches("abc=", "abc=", earlier(359), NOW));
    assert!(!digest_matches("abc=", "abc=", earlier(360), NOW));
    assert!(!digest_matches("abd=", "abc=", earlier(0), NOW));
}

#[test]
fn a_camera_is_kept_awake_for_minutes() {
    assert!(matches!(
        plan_awake("5", Ok(5)),
        Plan::Run { command: Command::StayAwake { minutes: 5 }, .. }
    ));
    match plan_awake("soon", Err("bad".to_string())) {
        Plan::Ack { topic, message } => {
            assert_eq!(topic, "control/wakeup");
            assert_eq!(message, "FAIL: 'soon' => bad");
        }
        other => panic!("{:?}", other),
    }
}

#[test]
fn a_relative_move_is_stopped() {
    let presets = Ok(Vec::new());
    let facts = PtzFacts {
        cam_name: "cam",
        caps: FULL,
        motion: Motion {
            pan: Axis { matters: true, positive: true, zero: false },
            zooms: true,
            ..STILL
        },
        presets: &presets,
        zoom_position: None,
        now: NOW,
    };
    let commands = answer(&facts, "RelativeMove", &nothing()).unwrap().commands;
    assert!(matches!(
        &commands[..],
        [
            PtzCommand::AbortZoom,
            PtzCommand::MoveAwhile(_),
            PtzCommand::StopQuietly,
            PtzCommand::ZoomBy
        ]
    ));
}
