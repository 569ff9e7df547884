//! The imaging service.

use neolink::camera::LightState;
use neolink::onvif::capabilities::{resolve, CameraCapabilities, Probe};
use neolink::onvif::services::imaging::{
    dispatch, focus_target, ir_cut_filter_to_led, led_to_ir_cut_filter, render_options,
    token_matches, FocusState, ImagingCommand, ImagingFacts,
};

/// The whole point of this mapping. ONVIF names the filter, the camera names
/// the illuminator, and they mean opposite things; a client asking for
/// `IrCutFilter=ON` wants daylight mode, which is the IR LEDs *off*.
#[test]
fn the_ir_cut_filter_mapping_is_inverted() {
    assert!(matches!(ir_cut_filter_to_led("ON"), Some(LightState::Off)));
    assert!(matches!(ir_cut_filter_to_led("OFF"), Some(LightState::On)));
    assert!(matches!(
        ir_cut_filter_to_led("AUTO"),
        Some(LightState::Auto)
    ));
    assert!(ir_cut_filter_to_led("SOMETIMES").is_none());

    assert_eq!(led_to_ir_cut_filter("close"), "ON");
    assert_eq!(led_to_ir_cut_filter("open"), "OFF");
    assert_eq!(led_to_ir_cut_filter("auto"), "AUTO");
}

/// Case and whitespace vary between clients; neither should decide whether
/// a camera flips to night mode.
#[test]
fn the_mapping_tolerates_client_formatting() {
    assert!(matches!(
        ir_cut_filter_to_led(" on "),
        Some(LightState::Off)
    ));
    assert!(matches!(
        ir_cut_filter_to_led("Auto"),
        Some(LightState::Auto)
    ));
    assert_eq!(led_to_ir_cut_filter(" OPEN "), "OFF");
}

/// A firmware value we have never seen is the camera deciding for itself,
/// which is what AUTO reports; not a guess at ON or OFF.
#[test]
fn an_unknown_led_state_reports_auto() {
    assert_eq!(led_to_ir_cut_filter("halfopen"), "AUTO");
    assert_eq!(led_to_ir_cut_filter(""), "AUTO");
}

fn caps(focus: bool) -> CameraCapabilities {
    let range = if focus { Some((0, 100)) } else { None };
    resolve(&Probe { focus_range: range, ..Probe::default() })
}

fn facts(focus: bool) -> ImagingFacts<'static> {
    ImagingFacts {
        cam_name: "cam",
        caps: caps(focus),
        led_state: Some("close"),
        focus: if focus { Some(FocusState { min: 0, max: 100, cur: 40 }) } else { None },
    }
}

#[test]
fn the_mode_that_was_set_is_the_mode_that_is_shown() {
    for (mode, state) in [("ON", "close"), ("OFF", "open"), ("AUTO", "auto")] {
        let led = match ir_cut_filter_to_led(mode) {
            Some(LightState::Off) => "close",
            Some(LightState::On) => "open",
            Some(LightState::Auto) => "auto",
            None => panic!("{mode} is a mode"),
        };
        assert_eq!(led, state);
        assert_eq!(led_to_ir_cut_filter(led), mode);
    }
}

const TOKEN: &str = "<VideoSourceToken>vsrc_cam</VideoSourceToken>";

#[test]
fn settings_are_read_and_written() {
    assert!(token_matches("cam", "vsrc_cam"));
    assert!(!token_matches("cam", "vsrc_other"));
    let body = format!("<GetImagingSettings>{TOKEN}</GetImagingSettings>");
    let answer = dispatch(&facts(false), "GetImagingSettings", &body).unwrap();
    assert!(answer.xml.contains("<tt:IrCutFilter>ON</tt:IrCutFilter>"), "{}", answer.xml);
    assert!(answer.command.is_none());

    let body = format!("<SetImagingSettings>{TOKEN}<IrCutFilter>OFF</IrCutFilter></SetImagingSettings>");
    let answer = dispatch(&facts(false), "SetImagingSettings", &body).unwrap();
    assert!(matches!(answer.command, Some(ImagingCommand::SetIrLed(LightState::On))));

    let body = format!("<SetImagingSettings>{TOKEN}<IrCutFilter>MAYBE</IrCutFilter></SetImagingSettings>");
    assert!(dispatch(&facts(false), "SetImagingSettings", &body).is_err());
    assert!(dispatch(&facts(false), "GetImagingSettings", "<GetImagingSettings/>").is_err());
}

#[test]
fn a_lens_without_a_motor_is_not_moved() {
    let body = format!("<Move>{TOKEN}<Focus><Absolute><Position>12</Position></Absolute></Focus></Move>");
    assert!(dispatch(&facts(false), "Move", &body).is_err());
    let answer = dispatch(&facts(true), "Move", &body).unwrap();
    match answer.command {
        Some(ImagingCommand::Focus(m)) => {
            assert!(!m.relative);
            assert_eq!(m.amount, "12");
        }
        other => panic!("not a focus move: {other:?}"),
    }
    assert!(focus_target("<Move/>").is_err());
    assert!(!render_options(&facts(false)).contains("Focus"));
    assert!(render_options(&facts(true)).contains("Focus"));
}
