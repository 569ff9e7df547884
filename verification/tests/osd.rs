//! The on-screen display.

use neolink::onvif::capabilities::{resolve, CameraCapabilities, Probe};
use neolink::onvif::services::device::SystemGeneral;
use neolink::onvif::services::osd::{
    apply_set_osd, dispatch, display_name, onvif_to_reolink_date_format, read_osd_token,
    reolink_to_onvif_date_format, render_datetime_osd, render_name_osd,
};

const DATE_FORMATS: &[(&str, &str)] = &[("DMY", "dd/MM/yyyy"), ("MDY", "MM/dd/yyyy"), ("YMD", "yyyy/MM/dd")];

/// `SetOSD` carries a whole `tt:OSDConfiguration`, whose token is an
/// attribute; there is no `OSDToken` element in the request at all.
#[test]
fn the_set_osd_token_is_read_from_the_attribute() {
    let body = "<trt:SetOSD><trt:OSD token=\"osd_name\">\
<tt:VideoSourceConfigurationToken>vs_cam</tt:VideoSourceConfigurationToken>\
<tt:Type>Text</tt:Type>\
<tt:TextString><tt:Type>Plain</tt:Type><tt:PlainText>Driveway</tt:PlainText></tt:TextString>\
</trt:OSD></trt:SetOSD>";
    assert_eq!(read_osd_token(body).as_deref(), Some("osd_name"));
}

/// Namespace prefixes vary between clients; the token does not move.
#[test]
fn the_set_osd_token_survives_any_prefix() {
    assert_eq!(
        read_osd_token("<SetOSD><OSD token=\"osd_datetime\"/></SetOSD>").as_deref(),
        Some("osd_datetime")
    );
    assert_eq!(
        read_osd_token("<x:SetOSD><x:OSD x:token=\"osd_name\"/></x:SetOSD>").as_deref(),
        Some("osd_name")
    );
}

/// A request with no OSD element, or an OSD element with no token, is a
/// genuine client error and has to stay one.
#[test]
fn a_set_osd_without_a_token_is_rejected() {
    assert!(read_osd_token("<trt:SetOSD></trt:SetOSD>").is_none());
    assert!(read_osd_token("<trt:SetOSD><trt:OSD/></trt:SetOSD>").is_none());
    // The `GetOSD` shape is not a valid `SetOSD`, and must not be
    // mistaken for one.
    assert!(
        read_osd_token("<trt:GetOSD><trt:OSDToken>osd_name</trt:OSDToken></trt:GetOSD>")
            .is_none()
    );
}

#[test]
fn date_formats_round_trip() {
    for (reolink, onvif) in DATE_FORMATS {
        assert_eq!(reolink_to_onvif_date_format(reolink), *onvif);
        assert_eq!(onvif_to_reolink_date_format(onvif), Some(*reolink));
    }
}

#[test]
fn an_unknown_camera_format_still_reports_a_date() {
    // The stamp is on screen either way, so reporting no format would be
    // less true than reporting the common one.
    assert_eq!(reolink_to_onvif_date_format("WAT"), "dd/MM/yyyy");
}

/// The camera can only reorder the fields, so a client asking for a layout
/// it cannot draw has to be told, not silently given something else.
#[test]
fn an_unsupported_client_format_is_rejected() {
    assert_eq!(onvif_to_reolink_date_format("MM.dd.yy"), None);
    assert_eq!(
        onvif_to_reolink_date_format(" YYYY/MM/DD "),
        Some("YMD"),
        "case and padding are the client's business, not the camera's"
    );
}

fn caps(osd: bool) -> CameraCapabilities {
    resolve(&Probe { support_osd: Some(osd), ..Probe::default() })
}

fn general(name: &str, format: &str) -> SystemGeneral {
    SystemGeneral {
        device_name: Some(name.to_string()),
        osd_format: Some(format.to_string()),
        ..Default::default()
    }
}

fn set_name(name: &str) -> String {
    format!(
        "<SetOSD><OSD token=\"osd_name\"><TextString><PlainText>{name}</PlainText></TextString></OSD></SetOSD>"
    )
}

#[test]
fn a_name_that_was_set_is_shown() {
    let written = apply_set_osd(Ok(general("old", "DMY")), "osd_name", &set_name("Driveway")).unwrap();
    assert_eq!(written.osd_format.as_deref(), Some("DMY"));
    let read = Ok(written);
    assert_eq!(display_name("cam", &read), "Driveway");
    assert!(render_name_osd("cam", &read, "trt:OSD").contains("Driveway"));
}

#[test]
fn a_format_that_was_set_is_shown() {
    let body = "<SetOSD><OSD token=\"osd_datetime\"><TextString><DateFormat>yyyy/MM/dd</DateFormat></TextString></OSD></SetOSD>";
    let written = apply_set_osd(Ok(general("name", "DMY")), "osd_datetime", body).unwrap();
    assert_eq!(written.osd_format.as_deref(), Some("YMD"));
    assert_eq!(written.device_name.as_deref(), Some("name"));
    assert!(render_datetime_osd("cam", &Ok(written), "trt:OSD").contains("yyyy/MM/dd"));
}

#[test]
fn requests_are_answered_as_far_as_the_camera_goes() {
    let answer = dispatch("cam", &caps(true), Ok(general("n", "MDY")), "GetOSDs", "<x/>").unwrap();
    assert!(answer.xml.contains("osd_name") && answer.xml.contains("osd_datetime"), "{}", answer.xml);
    assert!(answer.write.is_none());
    let answer = dispatch("cam", &caps(false), Ok(general("n", "MDY")), "GetOSDs", "<x/>").unwrap();
    assert!(!answer.xml.contains("osd_name"), "{}", answer.xml);

    let answer = dispatch("cam", &caps(true), Ok(general("n", "MDY")), "SetOSD", &set_name("m")).unwrap();
    assert_eq!(answer.write.unwrap().device_name.as_deref(), Some("m"));
    assert!(dispatch("cam", &caps(true), Err("silent".to_string()), "SetOSD", &set_name("m")).is_err());
    assert!(dispatch("cam", &caps(true), Ok(general("n", "MDY")), "SetOSD", "<SetOSD/>").is_err());
}
