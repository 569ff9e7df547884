//! Pan, tilt and zoom.

use neolink::camera::Direction;
use neolink::onvif::capabilities::CameraCapabilities;
use neolink::onvif::services::ptz::{
    allocate_preset_id, dispatch, needs_presets, parse_preset_id, parse_stop_flags,
    parse_velocity, pick_direction, pick_free_preset_id, preset_display_name, relative_zoom,
    render_configuration_options, render_ptz_configuration_xml, render_ptz_node,
    render_service_capabilities, render_supported_spaces, zoom_fraction, zoom_present_in, Axis,
    Motion, Preset, PtzAnswer, PtzCommand, PtzFacts, ZoomRun, HOME_PRESET_ID, MAX_PRESETS,
};
use neolink::time::Timestamp;

const NOTHING: CameraCapabilities = CameraCapabilities {
    pan_tilt: false,
    zoom: false,
    presets: false,
    preset_write: false,
    audio: false,
    led_ctrl: false,
    floodlight: false,
    focus: false,
    osd: false,
};

/// How a component of a velocity stands.
fn axis(v: f32) -> Axis {
    Axis { matters: v.abs() >= 0.05, positive: v > 0.0, zero: v == 0.0 }
}

fn number(text: &str) -> f32 {
    text.parse().unwrap_or(0.0)
}

const FULL: CameraCapabilities = CameraCapabilities {
    pan_tilt: true,
    zoom: true,
    presets: true,
    preset_write: true,
    ..NOTHING
};
const PT_ONLY: CameraCapabilities = CameraCapabilities {
    pan_tilt: true,
    zoom: false,
    presets: true,
    preset_write: true,
    ..NOTHING
};
const ZOOM_ONLY: CameraCapabilities = CameraCapabilities {
    pan_tilt: false,
    zoom: true,
    presets: false,
    preset_write: false,
    ..NOTHING
};
/// A user who may recall stored positions but not redefine them.
const READ_ONLY_PRESETS: CameraCapabilities = CameraCapabilities {
    pan_tilt: true,
    zoom: true,
    presets: true,
    preset_write: false,
    ..NOTHING
};

/// A fixed-lens pan/tilt camera must not offer a zoom space; clients read
/// this list to decide which controls to draw.
#[test]
fn a_pan_tilt_only_node_advertises_no_zoom_space() {
    let xml = render_ptz_node("cam", &PT_ONLY);
    assert!(xml.contains("ContinuousPanTiltVelocitySpace"));
    assert!(!xml.contains("ZoomVelocitySpace"), "{}", xml);
    assert!(!xml.contains("AbsoluteZoomPositionSpace"), "{}", xml);
}

#[test]
fn a_zoom_only_node_advertises_no_pan_tilt_space() {
    let xml = render_ptz_node("cam", &ZOOM_ONLY);
    assert!(!xml.contains("PanTiltVelocitySpace"), "{}", xml);
    assert!(xml.contains("ContinuousZoomVelocitySpace"));
    assert!(xml.contains("AbsoluteZoomPositionSpace"));
}

/// `GotoHomePosition` is preset 0, so a camera without presets has no home
/// and no preset slots to offer.
#[test]
fn presets_and_home_track_each_other() {
    let xml = render_ptz_node("cam", &FULL);
    assert!(xml.contains("<tt:MaximumNumberOfPresets>64</tt:MaximumNumberOfPresets>"));
    assert!(xml.contains("<tt:HomeSupported>true</tt:HomeSupported>"));

    let xml = render_ptz_node("cam", &ZOOM_ONLY);
    assert!(xml.contains("<tt:MaximumNumberOfPresets>0</tt:MaximumNumberOfPresets>"));
    assert!(xml.contains("<tt:HomeSupported>false</tt:HomeSupported>"));
}

/// The node and the configuration options describe the same hardware, so
/// they must list the same spaces.
#[test]
fn node_and_configuration_options_agree() {
    for caps in [FULL, PT_ONLY, ZOOM_ONLY] {
        let spaces = render_supported_spaces(&caps);
        assert!(render_ptz_node("cam", &caps).contains(&spaces));
        assert!(render_configuration_options(&caps).contains(&spaces));
    }
}

#[test]
fn a_configuration_only_defaults_the_axes_that_exist() {
    let xml = render_ptz_configuration_xml("cam", &PT_ONLY, "tt:PTZConfiguration");
    assert!(xml.contains("DefaultContinuousPanTiltVelocitySpace"));
    assert!(
        !xml.contains("DefaultContinuousZoomVelocitySpace"),
        "{}",
        xml
    );
    assert!(xml.contains("<tt:PanTilt x=\"0.5\""));
    assert!(!xml.contains("<tt:Zoom x=\"0.5\""), "{}", xml);

    let xml = render_ptz_configuration_xml("cam", &ZOOM_ONLY, "tt:PTZConfiguration");
    assert!(
        !xml.contains("DefaultContinuousPanTiltVelocitySpace"),
        "{}",
        xml
    );
    assert!(xml.contains("DefaultContinuousZoomVelocitySpace"));
}

/// The zoom position is the only one we can read back off a
/// camera, so it is the only thing that can justify `StatusPosition`.
#[test]
fn status_position_follows_zoom() {
    assert!(render_service_capabilities(&FULL).contains("StatusPosition=\"true\""));
    assert!(render_service_capabilities(&PT_ONLY).contains("StatusPosition=\"false\""));
}

#[test]
fn a_camera_with_nothing_gets_an_empty_space_list() {
    let none = CameraCapabilities {
        pan_tilt: false,
        zoom: false,
        presets: false,
        preset_write: false,
        ..NOTHING
    };
    assert_eq!(render_supported_spaces(&none), "");
}

#[test]
fn direction_picks_cardinal_when_one_axis_dominates() {
    assert!(pick_direction(axis(0.0), axis(0.0)).is_none());
    // Tiny secondary axis falls under the diagonal threshold.
    assert!(matches!(pick_direction(axis(0.8), axis(0.01)), Some(Direction::Right)));
    assert!(matches!(pick_direction(axis(-0.8), axis(0.01)), Some(Direction::Left)));
    assert!(matches!(pick_direction(axis(0.01), axis(0.8)), Some(Direction::Up)));
    assert!(matches!(pick_direction(axis(0.01), axis(-0.8)), Some(Direction::Down)));
}

#[test]
fn direction_picks_diagonal_when_both_axes_significant() {
    assert!(matches!(pick_direction(axis(0.8), axis(0.5)), Some(Direction::RightUp)));
    assert!(matches!(pick_direction(axis(-0.8), axis(0.5)), Some(Direction::LeftUp)));
    assert!(matches!(
        pick_direction(axis(0.8), axis(-0.5)),
        Some(Direction::RightDown)
    ));
    assert!(matches!(
        pick_direction(axis(-0.8), axis(-0.5)),
        Some(Direction::LeftDown)
    ));
}

#[test]
fn velocity_parse() {
    let xml = r#"<tptz:ContinuousMove xmlns:tptz="x" xmlns:tt="y">
<tptz:ProfileToken>foo</tptz:ProfileToken>
<tptz:Velocity>
  <tt:PanTilt x="0.5" y="-0.2"/>
  <tt:Zoom x="0.3"/>
</tptz:Velocity>
</tptz:ContinuousMove>"#;
    let v = parse_velocity(xml, "Velocity");
    assert!((number(&v.pan) - 0.5).abs() < 1e-6);
    assert!((number(&v.tilt) + 0.2).abs() < 1e-6);
    assert!((number(&v.zoom) - 0.3).abs() < 1e-6);
}

/// A wrapper that closes itself holds no velocity, whatever follows it.
#[test]
fn self_closing_position_holds_no_velocity() {
    let xml = r#"<tptz:AbsoluteMove xmlns:tptz="x" xmlns:tt="y">
<tptz:Position/>
<tptz:Speed><tt:PanTilt x="1" y="1"/><tt:Zoom x="0.5"/></tptz:Speed>
</tptz:AbsoluteMove>"#;
    let v = parse_velocity(xml, "Position");
    assert_eq!((v.pan.as_str(), v.tilt.as_str(), v.zoom.as_str()), ("", "", ""));
}

#[test]
fn stop_default_both_axes() {
    let xml =
        r#"<tptz:Stop xmlns:tptz="x"><tptz:ProfileToken>foo</tptz:ProfileToken></tptz:Stop>"#;
    assert_eq!(parse_stop_flags(xml), (true, true));
}

#[test]
fn stop_pan_tilt_only() {
    let xml = r#"<tptz:Stop xmlns:tptz="x"><tptz:ProfileToken>foo</tptz:ProfileToken><tptz:PanTilt>true</tptz:PanTilt><tptz:Zoom>false</tptz:Zoom></tptz:Stop>"#;
    assert_eq!(parse_stop_flags(xml), (true, false));
}

/// The camera has no fixed home; home is preset 0, an ordinary
/// writable slot; so the node must not claim otherwise.
#[test]
fn home_is_not_advertised_as_fixed() {
    let xml = render_ptz_node("cam", &FULL);
    assert!(xml.contains("FixedHomePosition=\"false\""), "{}", xml);
    assert!(xml.contains("<tt:HomeSupported>true</tt:HomeSupported>"));
}

/// ...but for a user who cannot write the preset table, home really is
/// fixed: they can go to it and cannot move it.
#[test]
fn home_is_fixed_when_presets_are_read_only() {
    let xml = render_ptz_node("cam", &READ_ONLY_PRESETS);
    assert!(xml.contains("FixedHomePosition=\"true\""), "{}", xml);
    assert!(
        xml.contains("<tt:HomeSupported>true</tt:HomeSupported>"),
        "recall still works, so home is still supported: {}",
        xml
    );
}

/// A camera with no preset table has no home at all; there is nothing to
/// call fixed.
#[test]
fn a_camera_without_presets_has_no_fixed_home_to_claim() {
    let xml = render_ptz_node("cam", &ZOOM_ONLY);
    assert!(xml.contains("FixedHomePosition=\"false\""), "{}", xml);
    assert!(xml.contains("<tt:HomeSupported>false</tt:HomeSupported>"));
}

/// A blank slot name renders as a usable label rather than an empty row in
/// the client's preset list.
#[test]
fn presets_always_get_a_label() {
    assert_eq!(preset_display_name(Some("Driveway"), 3), "Driveway");
    assert_eq!(preset_display_name(Some("   "), 3), "Preset 3");
    assert_eq!(preset_display_name(None, 7), "Preset 7");
}

#[test]
fn preset_names_are_escaped() {
    assert_eq!(
        preset_display_name(Some("Fred & <Ginger>"), 1),
        "Fred &amp; &lt;Ginger&gt;"
    );
}

/// "Save this view as a new preset" must not quietly redefine where the
/// home button goes.
#[test]
fn auto_allocation_leaves_the_home_slot_alone() {
    let empty = Vec::new();
    assert_eq!(pick_free_preset_id(&empty), Some(1));

    let used: Vec<u8> = (1u8..5).collect();
    assert_eq!(pick_free_preset_id(&used), Some(5));
}

/// ...but the slot isn't wasted: it is still handed out once nothing else
/// is left, so the camera keeps all 64 usable presets.
#[test]
fn the_home_slot_is_the_last_resort_not_a_reservation() {
    let used: Vec<u8> = (1u8..MAX_PRESETS).collect();
    assert_eq!(pick_free_preset_id(&used), Some(HOME_PRESET_ID));

    let all: Vec<u8> = (0u8..MAX_PRESETS).collect();
    assert_eq!(pick_free_preset_id(&all), None);
}

#[test]
fn preset_id_round_trip() {
    assert_eq!(parse_preset_id("preset_7"), Some(7));
    assert_eq!(parse_preset_id("preset_xyz"), None);
    assert_eq!(parse_preset_id("xyz"), None);
}

/// `<Position/>` self-closing must not put `zoom_present_in`
/// in the "inside wrapper" state, otherwise a later `<Speed><Zoom/></Speed>`
/// would falsely match.
#[test]
fn zoom_present_self_closing_position_does_not_match_speed_zoom() {
    let xml = r#"<tptz:AbsoluteMove xmlns:tptz="x" xmlns:tt="y">
<tptz:ProfileToken>p</tptz:ProfileToken>
<tptz:Position/>
<tptz:Speed><tt:Zoom x="0.5"/></tptz:Speed>
</tptz:AbsoluteMove>"#;
    assert!(!zoom_present_in(xml, "Position"));
}

#[test]
fn zoom_present_inside_position_matches() {
    let xml = r#"<tptz:AbsoluteMove xmlns:tptz="x" xmlns:tt="y">
<tptz:Position><tt:Zoom x="0.5"/></tptz:Position>
</tptz:AbsoluteMove>"#;
    assert!(zoom_present_in(xml, "Position"));
}

#[test]
fn zoom_present_only_inside_wrapper() {
    let xml = r#"<tptz:AbsoluteMove xmlns:tptz="x" xmlns:tt="y">
<tptz:Speed><tt:Zoom x="0.5"/></tptz:Speed>
</tptz:AbsoluteMove>"#;
    assert!(!zoom_present_in(xml, "Position"));
}

fn motion(pan: f32, tilt: f32, zoom: f32) -> Motion {
    Motion { pan: axis(pan), tilt: axis(tilt), zooms: zoom.abs() >= 0.05, zoom_in: zoom > 0.0 }
}

fn ask(
    caps: CameraCapabilities,
    motion: Motion,
    presets: &Result<Vec<Preset>, String>,
    action: &str,
    body: &str,
) -> Result<PtzAnswer, String> {
    let facts = PtzFacts {
        cam_name: "cam",
        caps,
        motion,
        presets,
        zoom_position: Some("0.25"),
        now: Timestamp { secs: 1_786_260_605, nanos: 0 },
    };
    dispatch(&facts, action, body).map_err(|f| f.reason)
}

#[test]
fn moves_reach_only_the_axes_that_exist() {
    let none = Ok(vec![]);
    let body = "<ContinuousMove/>";
    let answer = ask(FULL, motion(0.5, 0.0, 0.5), &none, "ContinuousMove", body).unwrap();
    assert!(answer.commands.iter().any(|c| matches!(c, PtzCommand::Move(Direction::Right))));
    assert!(answer.commands.iter().any(|c| matches!(c, PtzCommand::Zoom { inward: true })));
    let answer = ask(PT_ONLY, motion(0.5, 0.0, 0.5), &none, "ContinuousMove", body);
    if let Ok(answer) = answer {
        assert!(!answer.commands.iter().any(|c| matches!(c, PtzCommand::Zoom { .. })));
    }
}

#[test]
fn status_tells_the_zoom() {
    let xml = ask(FULL, motion(0.0, 0.0, 0.0), &Ok(vec![]), "GetStatus", "<x/>").unwrap().xml;
    assert!(xml.contains("x=\"0.25\""), "{xml}");
    assert!(xml.contains("2026-08-09T07:30:05"), "{xml}");
}

#[test]
fn presets_are_listed_stored_and_recalled() {
    let presets = Ok(vec![Preset { id: 1, name: Some("Gate".to_string()) }]);
    let still = motion(0.0, 0.0, 0.0);
    assert!(needs_presets(&FULL, "GetPresets", "<x/>"));
    let xml = ask(FULL, still, &presets, "GetPresets", "<x/>").unwrap().xml;
    assert!(xml.contains("token=\"preset_1\"") && xml.contains("Gate"), "{xml}");

    let body = "<SetPreset><PresetName>Tree</PresetName></SetPreset>";
    let answer = ask(FULL, still, &presets, "SetPreset", body).unwrap();
    match &answer.commands[..] {
        [PtzCommand::SetPreset(2, name)] => assert_eq!(name, "Tree"),
        other => panic!("not the next free slot: {other:?}"),
    }
    assert!(answer.xml.contains("preset_2"), "{}", answer.xml);
    assert!(ask(READ_ONLY_PRESETS, still, &presets, "SetPreset", body).is_err());

    let body = "<GotoPreset><PresetToken>preset_1</PresetToken></GotoPreset>";
    let answer = ask(READ_ONLY_PRESETS, still, &presets, "GotoPreset", body).unwrap();
    assert!(answer.commands.iter().any(|c| matches!(c, PtzCommand::GotoPreset(1))));
    assert!(ask(ZOOM_ONLY, still, &presets, "GotoPreset", body).is_err());
    assert!(ask(FULL, still, &presets, "Somersault", "<x/>").is_err());
}

#[test]
fn a_full_table_has_no_free_slot() {
    let all = Ok((0..MAX_PRESETS).map(|id| Preset { id, name: None }).collect());
    let facts = PtzFacts {
        cam_name: "cam",
        caps: FULL,
        motion: motion(0.0, 0.0, 0.0),
        presets: &all,
        zoom_position: None,
        now: Timestamp { secs: 0, nanos: 0 },
    };
    assert!(allocate_preset_id(&facts).is_err());
}

#[test]
fn a_zoom_runs_to_the_end_of_its_range() {
    let mut run = ZoomRun::new(0, 100, 90, true).unwrap();
    let mut last = 90;
    let mut steps = 0;
    while let Some(target) = run.next() {
        assert!(target > last && target <= 100);
        last = target;
        steps += 1;
        assert!(steps <= 100);
    }
    assert_eq!(last, 100);
    assert!(ZoomRun::new(5, 5, 5, true).is_none());
}

#[test]
fn zoom_positions() {
    assert_eq!(relative_zoom(50, 20, 0, 100), 70);
    assert_eq!(relative_zoom(50, -80, 0, 100), 0);
    assert_eq!(relative_zoom(50, 80, 0, 100), 100);
    assert_eq!(zoom_fraction(30, 10, 50), Some((20, 40)));
    assert_eq!(zoom_fraction(30, 50, 50), None);
}
