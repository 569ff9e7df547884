//! Finding the bridge on the network.

use neolink::config::AudioFormat;
use neolink::onvif::capabilities::{resolve, CameraCapabilities, Probe};
use neolink::onvif::discovery::{
    bye_envelope, datagram_to_answer, extract_msg_id, handle_probe, hello_envelope, is_probe, probe_match_envelope,
    probe_to_answer, scopes_for, xaddr,
};
use neolink::onvif::state::{CameraEntry, DeviceUuid, OnvifStream};

#[test]
fn detects_probe() {
    assert!(is_probe("<wsd:Probe xmlns:wsd=\"...\"/>"));
    assert!(!is_probe("<wsd:ProbeMatches xmlns:wsd=\"...\"/>"));
    assert!(!is_probe("<wsd:Hello/>"));
}

#[test]
fn extracts_message_id() {
    let xml = r#"<a:MessageID xmlns:a="x">urn:uuid:abc-123</a:MessageID>"#;
    assert_eq!(extract_msg_id(xml).as_deref(), Some("urn:uuid:abc-123"));
}

#[test]
fn message_ids_are_texts_right_behind_their_tag() {
    assert_eq!(extract_msg_id("<e><MessageID/><MessageID>1</MessageID></e>").as_deref(), Some("1"));
    let empty_first = "<e><MessageID></MessageID><MessageID>1</MessageID></e>";
    assert_eq!(extract_msg_id(empty_first).as_deref(), Some("1"));
    assert_eq!(extract_msg_id("<e><MessageID><x></x>1</MessageID></e>"), None);
    assert_eq!(extract_msg_id("<e><MessageID><x/>1</MessageID></e>").as_deref(), Some("1"));
    assert_eq!(extract_msg_id("<e>1</e>"), None);
    // What stands in front of an error still counts; what follows it does not.
    assert_eq!(extract_msg_id("<MessageID>1</wrong>").as_deref(), Some("1"));
    assert_eq!(extract_msg_id("</a><MessageID>1</MessageID>"), None);
}

fn entry(name: &str, byte: u8) -> CameraEntry {
    CameraEntry {
        name: name.to_string(),
        channel_id: 0,
        uuid: DeviceUuid { bytes: [byte; 16] },
        streams: vec![OnvifStream::Main],
        permitted_users: None,
        audio_format: AudioFormat::Pcm,
    }
}

/// What a camera is taken to do before it has been asked.
fn unknown() -> CameraCapabilities {
    resolve(&Probe::default())
}

/// A camera without any motor.
fn fixed() -> CameraCapabilities {
    CameraCapabilities {
        pan_tilt: false,
        zoom: false,
        presets: false,
        preset_write: false,
        ..unknown()
    }
}

#[test]
fn scopes_follow_the_capability_probe() {
    let ptz = " onvif://www.onvif.org/type/ptz";
    assert!(scopes_for("cam", &unknown()).ends_with(ptz));
    assert!(!scopes_for("cam", &fixed()).contains(ptz));
    let camera = entry("a", 0x44);
    assert!(hello_envelope(&camera.uuid, "a", &unknown(), "host", "id").contains(ptz));
    assert!(!hello_envelope(&camera.uuid, "a", &fixed(), "host", "id").contains(ptz));
}

#[test]
fn a_datagram_may_hold_a_probe() {
    let probe = b"<e><MessageID>urn:uuid:1</MessageID><Probe/><x>\xff</x></e>";
    assert_eq!(datagram_to_answer(probe).as_deref(), Some("urn:uuid:1"));
    assert_eq!(datagram_to_answer(b"\xff\xfe"), None);
}

#[test]
fn only_probes_with_an_id_are_answered() {
    let probe = r#"<e><MessageID>urn:uuid:1</MessageID><Probe/></e>"#;
    assert_eq!(probe_to_answer(probe).as_deref(), Some("urn:uuid:1"));
    assert_eq!(probe_to_answer("<e><Probe/></e>"), None);
    assert_eq!(probe_to_answer("<e><MessageID>urn:uuid:1</MessageID><Hello/></e>"), None);
}

#[test]
fn addresses_are_valid_and_escaped() {
    assert_eq!(xaddr("host:8000", "Front Door"), "http://host:8000/onvif/Front%20Door/device_service");
    assert!(scopes_for("A&B", &unknown()).contains("onvif://www.onvif.org/name/A&amp;B "));
}

#[test]
fn every_camera_answers_a_probe_for_itself() {
    let cameras = vec![entry("a", 0x11), entry("b", 0x22)];
    let ids = vec!["id-1".to_string(), "id-2".to_string()];
    let answers = handle_probe(&cameras, &vec![unknown(), fixed()], "host:8000", "urn:uuid:asked", &ids);
    assert_eq!(answers.len(), 2);
    assert_eq!(
        answers[1],
        probe_match_envelope(&cameras[1].uuid, "b", &fixed(), "host:8000", "urn:uuid:asked", "id-2")
    );
    assert!(answers[0].contains("urn:uuid:11111111-1111-1111-1111-111111111111"));
    assert!(answers[0].contains("<a:RelatesTo>urn:uuid:asked</a:RelatesTo>"));
    assert!(answers[0].contains("http://host:8000/onvif/a/device_service"));
}

#[test]
fn coming_and_going_are_announced() {
    let camera = entry("a", 0x33);
    let hello = hello_envelope(&camera.uuid, "a", &unknown(), "host:8000", "id-1");
    assert!(hello.contains("discovery/Hello") && hello.contains("urn:uuid:id-1"));
    let bye = bye_envelope(&camera.uuid, "id-2");
    assert!(bye.contains("discovery/Bye") && bye.contains("33333333-3333-3333-3333-333333333333"));
    assert!(!bye.contains("XAddrs"));
}
