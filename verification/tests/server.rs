//! Who is let in, and which cameras there are.

use base64::engine::general_purpose::STANDARD;
use base64::Engine;

use neolink::config::{
    default_bind_addr, default_bind_port, default_channel_id, default_discovery,
    default_max_discovery_retries, default_maxenc, default_mqtt, default_pause, default_print,
    default_splash, default_stream, default_strict, default_true, default_update_time,
    CameraConfig, Compat, Config, OnvifCameraConfig, OnvifGlobalConfig, UserConfig,
};
use neolink::onvif::server::{
    admit_parsed, auth_check, camera_index, dispatch_service, root_index, soap_reply, AuthError,
};
use neolink::onvif::services::device::other_fault;
use neolink::onvif::snapshot::{authenticated, check_login, handler, SnapshotStep};
use neolink::onvif::soap::{parse_envelope, Credential, FaultCode, UserTable, UsernameToken};
use neolink::onvif::state::{build_camera_uuid, url_path_segment, wanted_cameras, OnvifState};
use neolink::time::Timestamp;

/// 2026-08-09 07:30:05 UTC.
const NOW: Timestamp = Timestamp { secs: 1_786_260_605, nanos: 0 };

fn camera(name: &str, uid: Option<&str>) -> CameraConfig {
    CameraConfig {
        name: name.to_string(),
        camera_addr: Some("192.168.1.10".to_string()),
        camera_uid: uid.map(|u| u.to_string()),
        username: "admin".to_string(),
        password: None,
        stream: default_stream(),
        permitted_users: None,
        channel_id: default_channel_id(),
        mqtt: default_mqtt(),
        pause: default_pause(),
        discovery: default_discovery(),
        max_encryption: default_maxenc(),
        strict: default_strict(),
        print_format: default_print(),
        update_time: default_update_time(),
        buffer_duration: None,
        enabled: default_true(),
        debug: false,
        use_splash: None,
        splash_pattern: default_splash(),
        audio_format: None,
        max_discovery_retries: default_max_discovery_retries(),
        push_notifications: true,
        idle_disconnect: false,
        max_fps: None,
        compat: Compat::Default,
        onvif: OnvifCameraConfig::default(),
    }
}

fn config(cameras: Vec<CameraConfig>, users: &[(&str, Option<&str>)]) -> Config {
    Config {
        cameras,
        bind_addr: default_bind_addr(),
        bind_port: default_bind_port(),
        tokio_console: false,
        certificate: None,
        mqtt: None,
        tls_client_auth: "none".to_string(),
        users: users
            .iter()
            .map(|(name, pass)| UserConfig {
                name: name.to_string(),
                pass: pass.map(|p| p.to_string()),
            })
            .collect(),
        onvif: OnvifGlobalConfig { enabled: true, ..OnvifGlobalConfig::default() },
        dscp: None,
    }
}

fn bridge(users: &[(&str, Option<&str>)], permitted: Option<Vec<String>>) -> OnvifState {
    let mut front = camera("front", None);
    front.permitted_users = permitted;
    let config = config(vec![front], users);
    let mut state = OnvifState::new(OnvifGlobalConfig::default(), 0);
    state.sync_with_config(&config, true);
    state
}

fn plain(user: &str, password: &str) -> Option<UsernameToken> {
    let xml = format!(
        "<Envelope><Header><Security><UsernameToken><Username>{user}</Username>\
<Password Type=\"x#PasswordText\">{password}</Password></UsernameToken></Security></Header>\
<Body><GetProfiles/></Body></Envelope>"
    );
    let token = parse_envelope(&xml).unwrap().auth;
    assert!(matches!(token.as_ref().unwrap().credential, Credential::Plain(_)));
    token
}

#[test]
fn admission_needs_proof() {
    let state = bridge(&[("alice", Some("a")), ("bob", Some("b"))], Some(vec!["bob".to_string()]));
    let users = &state.users;
    let permitted = Some(vec!["bob".to_string()]);
    let check = |token, action| auth_check(users, &permitted, &token, action, NOW);
    assert_eq!(check(None, "GetProfiles"), Err(AuthError::MissingToken));
    assert_eq!(check(plain("bob", "wrong"), "GetProfiles"), Err(AuthError::BadCredentials));
    assert_eq!(check(plain("carol", "a"), "GetProfiles"), Err(AuthError::BadCredentials));
    assert_eq!(check(plain("alice", "a"), "GetProfiles"), Err(AuthError::UserNotPermitted));
    assert_eq!(check(plain("bob", "b"), "GetProfiles"), Ok(()));
    assert_eq!(check(None, "GetSystemDateAndTime"), Ok(()));
    assert_eq!(AuthError::UserNotPermitted.reason(), "User not permitted");
    // Where nobody is named, everybody is let in.
    assert_eq!(auth_check(&UserTable::new(), &None, &None, "GetProfiles", NOW), Ok(()));
}

#[test]
fn requests_reach_their_camera() {
    let state = bridge(&[("alice", Some("a"))], None);
    let body = "<Envelope><Body><GetSystemDateAndTime/></Body></Envelope>";
    let admitted = dispatch_service(&state, "front", body, NOW).unwrap();
    assert_eq!(admitted.action, "GetSystemDateAndTime");
    assert_eq!(state.cameras[admitted.camera].name, "front");
    let unknown = dispatch_service(&state, "back", body, NOW).unwrap_err();
    assert_eq!(unknown.reason, "Unknown camera 'back'");
    let closed = "<Envelope><Body><GetProfiles/></Body></Envelope>";
    let refused = admit_parsed(&state, "front", parse_envelope(closed), NOW).unwrap_err();
    assert_eq!(refused.code, FaultCode::NotAuthorized);
    assert_eq!(refused.reason, "WS-UsernameToken required");
    assert!(dispatch_service(&state, "front", "<Envelope><Body>", NOW).is_err());
}

#[test]
fn faults_are_wrapped_and_answers_are_not() {
    assert_eq!(soap_reply(Ok("<a/>".to_string())), "<a/>");
    let fault = soap_reply(Err(other_fault("it broke".to_string())));
    assert!(fault.contains("Fault") && fault.contains("it broke"), "{fault}");
    assert_eq!(camera_index("front"), "neolink ONVIF device for camera 'front'");
    assert_eq!(root_index(), "neolink ONVIF bridge");
}

fn basic(login: &str) -> String {
    format!("Basic {}", STANDARD.encode(login))
}

#[test]
fn pictures_need_a_login_too() {
    let state = bridge(&[("alice", Some("a:b"))], None);
    assert_eq!(handler(&state, "back", None), SnapshotStep::NotFound);
    assert_eq!(handler(&state, "front", None), SnapshotStep::Unauthorized);
    assert_eq!(handler(&state, "front", Some("Bearer x")), SnapshotStep::Unauthorized);
    assert_eq!(handler(&state, "front", Some("Basic !!!")), SnapshotStep::Unauthorized);
    assert_eq!(handler(&state, "front", Some(&basic("alice:nope"))), SnapshotStep::Unauthorized);
    assert!(!matches!(
        handler(&state, "front", Some(&basic("alice:a:b"))),
        SnapshotStep::NotFound | SnapshotStep::Unauthorized
    ));
    assert!(check_login("alice:a:b", &state.users, &None));
    assert!(!check_login("alice:a:b", &state.users, &Some(vec!["bob".to_string()])));
    assert!(authenticated(&UserTable::new(), &None, None));
    assert!(!authenticated(&UserTable::new(), &Some(vec!["bob".to_string()]), None));
}

#[test]
fn cameras_have_stable_identities() {
    let auto = build_camera_uuid(&camera("front", Some("UID1")));
    assert_eq!(auto, build_camera_uuid(&camera("front", Some("UID1"))));
    assert_ne!(auto, build_camera_uuid(&camera("front", Some("UID2"))));
    assert_ne!(build_camera_uuid(&camera("a", None)), build_camera_uuid(&camera("b", None)));
    // Version 5 of a UUID.
    assert_eq!(auto.bytes[6] >> 4, 5);
    let mut fixed = camera("front", None);
    fixed.onvif.uuid = "00112233-4455-6677-8899-aabbccddeeff".to_string();
    assert_eq!(build_camera_uuid(&fixed).text(), "00112233-4455-6677-8899-aabbccddeeff");
    fixed.onvif.uuid = "not a uuid".to_string();
    assert_ne!(build_camera_uuid(&fixed).text(), "not a uuid");
}

#[test]
fn only_enabled_cameras_are_served() {
    let mut hidden = camera("hidden", None);
    hidden.onvif.enabled = false;
    let served = config(vec![camera("front", None), hidden], &[]);
    let mut off = config(vec![camera("front", None)], &[]);
    off.onvif.enabled = false;
    assert!(wanted_cameras(&off).is_empty());
    let cameras = wanted_cameras(&served);
    assert_eq!(cameras.len(), 1);
    assert_eq!(cameras[0].name, "front");

    let mut state = OnvifState::new(OnvifGlobalConfig::default(), 0);
    assert_eq!(state.cameras_to_attach(&served), vec!["front".to_string()]);
    state.sync_with_config(&served, true);
    assert!(state.cameras_to_attach(&served).is_empty());
    assert_eq!(state.rtsp_port, 8554);
    assert!(state.camera("front").is_some() && state.camera("hidden").is_none());
}

#[test]
fn where_the_bridge_says_it_is() {
    let mut state = OnvifState::new(OnvifGlobalConfig::default(), 8554);
    assert_eq!(state.advertise_authority(None), None);
    assert_eq!(state.advertise_authority(Some("10.0.0.2")).as_deref(), Some("10.0.0.2:8000"));
    assert_eq!(state.advertise_host(Some("10.0.0.2")).as_deref(), Some("10.0.0.2"));
    state.globals.advertise_host = "cams.lan:9000".to_string();
    assert_eq!(state.advertise_authority(None).as_deref(), Some("cams.lan:9000"));
    assert_eq!(state.advertise_host(None).as_deref(), Some("cams.lan"));
    state.globals.advertise_host = "cams.lan".to_string();
    assert_eq!(state.advertise_authority(None).as_deref(), Some("cams.lan:8000"));
}

#[test]
fn names_become_path_segments() {
    assert_eq!(url_path_segment("Front Door/2"), "Front%20Door%2F2");
    assert_eq!(url_path_segment("caf\u{e9}"), "caf%C3%A9");
    assert_eq!(url_path_segment("a-b_c.d~"), "a-b_c.d~");
}

#[test]
fn passwords_follow_the_configuration() {
    let state = bridge(&[("alice", Some("a")), ("guest", None)], None);
    assert_eq!(state.user_password("alice"), Some("a"));
    assert_eq!(state.user_password("bob"), None);
}
