//! What messages ask for, what is published, and what is watched.

use neolink::camera::{Direction, LightState, ReadFailure};
use neolink::config::{
    default_bind_addr, default_bind_port, default_channel_id, default_discovery,
    default_max_discovery_retries, default_maxenc, default_mqtt, default_pause, default_print,
    default_splash, default_stream, default_strict, default_true, default_update_time,
    CameraConfig, Compat, Config, MqttDiscoveryConfig, MqttServerConfig, OnvifCameraConfig,
    OnvifGlobalConfig, UserConfig,
};
use neolink::mqtt::listener::{
    is_watched, names_missing, poll_interval, start_steps, Reaction, Seen, StartStep, Watch,
    PushNotification, WatchEvent, WatchOptions,
};
use neolink::mqtt::messages::{
    ack_after, handle_mqtt_message, move_number, reply_to, zoom_number, Command, NumberUse,
    Outcome, Plan, Publish, StatusFailure,
};
use neolink::mqtt::reload::{
    config_message, config_status, is_config, take_config, unchanged, ConfigStep,
};
use neolink::mqtt::secrets::restore_secrets;

fn camera(name: &str, uid: Option<&str>) -> CameraConfig {
    CameraConfig {
        name: name.to_string(),
        camera_addr: Some("192.168.1.10".to_string()),
        camera_uid: uid.map(|u| u.to_string()),
        username: "admin".to_string(),
        password: None,
        stream: default_stream(),
        permitted_users: None,
        channel_id: default_channel_id(),
        mqtt: default_mqtt(),
        pause: default_pause(),
        discovery: default_discovery(),
        max_encryption: default_maxenc(),
        strict: default_strict(),
        print_format: default_print(),
        update_time: default_update_time(),
        buffer_duration: None,
        enabled: default_true(),
        debug: false,
        use_splash: None,
        splash_pattern: default_splash(),
        audio_format: None,
        max_discovery_retries: default_max_discovery_retries(),
        push_notifications: true,
        idle_disconnect: false,
        max_fps: None,
        compat: Compat::Default,
        onvif: OnvifCameraConfig::default(),
    }
}

fn config(cameras: Vec<CameraConfig>, users: &[(&str, Option<&str>)]) -> Config {
    Config {
        cameras,
        bind_addr: default_bind_addr(),
        bind_port: default_bind_port(),
        tokio_console: false,
        certificate: None,
        mqtt: None,
        tls_client_auth: "none".to_string(),
        users: users
            .iter()
            .map(|(name, pass)| UserConfig {
                name: name.to_string(),
                pass: pass.map(|p| p.to_string()),
            })
            .collect(),
        onvif: OnvifGlobalConfig { enabled: true, ..OnvifGlobalConfig::default() },
        dscp: None,
    }
}

fn command(topic: &str, message: &str) -> Option<Command> {
    match handle_mqtt_message(topic, message) {
        Plan::Run { command, .. } => Some(command),
        _ => None,
    }
}

fn refusal(topic: &str, message: &str) -> Option<(&'static str, String)> {
    match handle_mqtt_message(topic, message) {
        Plan::Ack { topic, message } => Some((topic, message)),
        _ => None,
    }
}

#[test]
fn topics_ask_for_commands() {
    assert_eq!(command("control/floodlight", "on"), Some(Command::Floodlight { on: true, seconds: 180 }));
    assert_eq!(command("control/led", "off"), Some(Command::Led { on: false }));
    assert_eq!(command("control/ir", "auto"), Some(Command::Ir { state: LightState::Auto }));
    assert_eq!(command("control/reboot", ""), Some(Command::Reboot));
    assert_eq!(command("control/ptz/preset", "7"), Some(Command::GotoPreset { id: 7 }));
    assert_eq!(command("control/pir", "on"), Some(Command::Pir { on: true }));
    assert_eq!(command("control/wakeup", "15"), Some(Command::StayAwake { minutes: 15 }));
    assert_eq!(command("control/floodlight_tasks", "TRUE"), Some(Command::FloodlightTasks { on: true }));
    assert_eq!(command("control/siren", "on"), Some(Command::Siren));
    assert_eq!(command("control/siren", "off"), None);
    assert_eq!(command("control/privacy", "on"), Some(Command::SetPrivacy { on: true }));
    assert_eq!(command("control/scene", "0"), Some(Command::DisableScene));
    assert_eq!(command("control/scene", "3"), Some(Command::SetScene { id: 3 }));
    assert_eq!(command("query/battery", ""), Some(Command::ReadBattery));
    assert_eq!(command("query/preview", ""), Some(Command::ReadPreview));
    assert_eq!(command("control/unheard-of", "on"), None);
    match handle_mqtt_message("control/ptz/assign", "4 Gate") {
        Plan::Run { command, name } => {
            assert_eq!(command, Command::AssignPreset { id: 4 });
            assert_eq!(name, "Gate");
        }
        other => panic!("not a preset: {other:?}"),
    }
}

#[test]
fn what_is_not_understood_is_refused() {
    assert_eq!(refusal("control/ptz/preset", "999"), Some(("control/ir", "FAIL".to_string())));
    assert_eq!(refusal("control/scene", "x"), Some(("control/scene", "FAIL".to_string())));
    let (topic, message) = refusal("control/wakeup", "soon").unwrap();
    assert_eq!(topic, "control/wakeup");
    assert_eq!(message, "FAIL: 'soon' => ParseIntError { kind: InvalidDigit }");
}

/// An answer that comes back is not a request.
#[test]
fn answers_are_ignored() {
    for message in ["OK", "FAIL", "FAIL: why", "OK: fine"] {
        assert!(matches!(handle_mqtt_message("control/reboot", message), Plan::Ignore));
    }
    let (topic, message) = refusal("control/scene", "x").unwrap();
    assert!(matches!(handle_mqtt_message(topic, &message), Plan::Ignore));
}

#[test]
fn movements_take_a_direction_and_a_number() {
    match handle_mqtt_message("control/ptz", "LEFT 12.5") {
        Plan::ReadNumber { purpose, number } => {
            assert_eq!(purpose, NumberUse::Move { direction: Some(Direction::Left) });
            assert_eq!(number, "12.5");
        }
        other => panic!("not a movement: {other:?}"),
    }
    match handle_mqtt_message("control/ptz", "in") {
        Plan::ReadNumber { purpose, number } => {
            assert_eq!(purpose, NumberUse::Move { direction: Some(Direction::In) });
            assert_eq!(number, "32.0");
        }
        other => panic!("not a movement: {other:?}"),
    }
    assert!(matches!(handle_mqtt_message("control/ptz", "  "), Plan::Ack { topic: "control/ptz", .. }));
    assert!(matches!(move_number(None, Some(1)), Plan::Ack { .. }));
    assert!(matches!(
        move_number(Some(Direction::Up), Some(5)),
        Plan::Run { command: Command::Move { direction: Direction::Up, hold_ns: 5 }, .. }
    ));
    assert!(matches!(zoom_number(Some(1500)), Plan::Run { command: Command::Zoom { thousandths: 1500 }, .. }));
    assert!(matches!(zoom_number(None), Plan::Ack { topic: "control/zoom", .. }));
}

fn said(p: &Publish) -> (&str, &str, bool) {
    (p.topic, p.message.as_str(), p.retain)
}

#[test]
fn outcomes_are_published() {
    let reply = reply_to(Command::ReadPreview, &Outcome::Bytes(b"jpeg".to_vec()));
    assert_eq!(said(reply.status.as_ref().unwrap()), ("status/preview", "anBlZw==", true));
    assert_eq!(said(&reply.ack), ("query/preview", "OK", false));
    assert_eq!(reply.status_failure, StatusFailure::Report);
    let reply = reply_to(Command::ReadPresets, &Outcome::Xml("<p/>".to_string()));
    assert_eq!(said(reply.status.as_ref().unwrap()), ("status/ptz/preset", "<p/>", false));
    let reply = reply_to(Command::ReadScenes, &Outcome::Ids(vec![1, 20, 3]));
    assert_eq!(said(reply.status.as_ref().unwrap()).1, "1,20,3");
    let reply = reply_to(Command::Siren, &Outcome::Failed { error: "busy".to_string() });
    assert!(reply.status.is_none());
    assert_eq!(said(&reply.ack).1, "FAIL: busy");
    let reply = reply_to(Command::Reboot, &Outcome::Failed { error: "busy".to_string() });
    assert_eq!(said(&reply.ack).1, "FAIL");
}

#[test]
fn a_status_that_is_lost_changes_the_answer() {
    let read = || reply_to(Command::ReadPrivacy, &Outcome::Flag(true));
    assert_eq!(ack_after(read(), true).unwrap().message, "OK");
    assert_eq!(ack_after(read(), false).unwrap().message, "FAIL");
    let battery = reply_to(Command::ReadBattery, &Outcome::Xml(String::new()));
    assert!(ack_after(battery, false).is_none());
    let scene = reply_to(Command::SetScene { id: 2 }, &Outcome::Done);
    assert_eq!(ack_after(scene, false).unwrap().message, "OK");
}

#[test]
fn listening_starts_with_what_is_known() {
    let steps = start_steps(&default_mqtt());
    assert!(steps.iter().any(|s| matches!(s, StartStep::LastWill { topic: "status", message: "disconnected" })));
    assert!(steps.iter().any(|s| match s {
        StartStep::Publish(p) => said(p) == ("status/motion", "unknown", true),
        _ => false,
    }));
    assert!(!steps.iter().any(|s| matches!(s, StartStep::EnableDiscovery)));
}

#[test]
fn settings_choose_what_is_watched() {
    let mut mqtt = default_mqtt();
    let options = WatchOptions {
        push_notifications: false,
        enable_privacy: true,
        privacy_update: 7_000,
        enable_scene: false,
        scene_update: 9_000,
    };
    assert!(is_watched(Watch::Requests, &mqtt, &options));
    assert!(!is_watched(Watch::Notifications, &mqtt, &options));
    assert!(is_watched(Watch::Privacy, &mqtt, &options));
    assert!(!is_watched(Watch::Scenes, &mqtt, &options));
    mqtt.enable_motion = false;
    assert!(!is_watched(Watch::Motion, &mqtt, &options));
    assert_eq!(poll_interval(Watch::Preview, &mqtt, &options), Some(2_000));
    assert_eq!(poll_interval(Watch::Privacy, &mqtt, &options), Some(7_000));
    assert_eq!(poll_interval(Watch::Motion, &mqtt, &options), None);
}

fn published(reaction: Reaction) -> Vec<(&'static str, String)> {
    match reaction {
        Reaction::Publish(list) => list.into_iter().map(|p| (p.topic, p.message)).collect(),
        other => panic!("nothing to publish: {other:?}"),
    }
}

#[test]
fn changes_are_published_and_repetitions_are_not() {
    let mut seen = Seen::new();
    assert!(published(seen.react(WatchEvent::Connected(false))).is_empty());
    assert_eq!(published(seen.react(WatchEvent::Connected(true))), vec![("status", "connected".to_string())]);
    assert!(published(seen.react(WatchEvent::MotionStop)).is_empty());
    assert_eq!(published(seen.react(WatchEvent::MotionStart)), vec![("status/motion", "on".to_string())]);
    assert!(published(seen.react(WatchEvent::MotionStart)).is_empty());
    assert_eq!(published(seen.react(WatchEvent::MotionStop)), vec![("status/motion", "off".to_string())]);
    assert_eq!(
        published(seen.react(WatchEvent::Lights(vec![1, 0]))),
        vec![("status/floodlight", "on".to_string()), ("status/floodlight", "off".to_string())]
    );
    assert_eq!(
        published(seen.react(WatchEvent::Battery(Ok(87)))),
        vec![("status/battery_level", "87".to_string())]
    );
}

#[test]
fn failures_end_what_cannot_work() {
    let mut seen = Seen::new();
    assert!(matches!(seen.react(WatchEvent::Battery(Err(ReadFailure::Unavailable))), Reaction::Quiet));
    assert!(matches!(seen.react(WatchEvent::Battery(Err(ReadFailure::Other))), Reaction::Fail));
    assert!(matches!(seen.react(WatchEvent::Privacy(Err(ReadFailure::Other))), Reaction::Quiet));
    seen.react(WatchEvent::Privacy(Ok(true)));
    assert!(published(seen.react(WatchEvent::Privacy(Err(ReadFailure::Other)))).is_empty());
    assert!(matches!(seen.react(WatchEvent::LightsEnded(ReadFailure::Unintelligible)), Reaction::Quiet));
}

#[test]
fn names_come_and_go() {
    let names = |list: &[&str]| list.iter().map(|n| n.to_string()).collect::<Vec<_>>();
    assert_eq!(names_missing(&names(&["a", "b", "c"]), &names(&["b"])), names(&["a", "c"]));
}

/// A configuration that was published without its secrets can be sent back.
#[test]
fn a_published_configuration_comes_back_whole() {
    let server = |credentials: Option<(String, String)>| MqttServerConfig {
        broker_addr: "broker".to_string(),
        port: 1883,
        credentials,
        ca: None,
        client_auth: None,
    };
    let mut in_force = config(vec![camera("front", None)], &[("alice", Some("a"))]);
    in_force.cameras[0].password = Some("cam-pass".to_string());
    in_force.mqtt = Some(server(Some(("me".to_string(), "mine".to_string()))));
    let mut sent = config(vec![camera("front", None), camera("new", None)], &[("alice", None)]);
    sent.mqtt = Some(server(None));
    let restored = restore_secrets(sent, &in_force);
    assert_eq!(restored.cameras[0].password.as_deref(), Some("cam-pass"));
    assert_eq!(restored.cameras[1].password, None);
    assert_eq!(restored.users[0].pass.as_deref(), Some("a"));
    assert_eq!(restored.mqtt.unwrap().credentials.unwrap().1, "mine");
}

/// What comes of a configuration that is sent back, in the order of the tests it
/// has to pass.
#[test]
fn configurations_are_taken_if_they_change_something() {
    let mut in_force = config(vec![camera("front", None)], &[("alice", Some("a"))]);
    in_force.cameras[0].camera_uid = Some("UID".to_string());
    in_force.cameras[0].password = Some("cam-pass".to_string());

    match take_config(Err("no TOML".to_string()), &in_force, None) {
        ConfigStep::Report(reason) => assert_eq!(reason, "no TOML"),
        other => panic!("{other:?}"),
    }

    let mut invalid = in_force.clone();
    invalid.cameras[0].channel_id = 32;
    match take_config(Ok(invalid), &in_force, None) {
        ConfigStep::Report(reason) => {
            assert_eq!(reason, "Failed to validate the MQTT \"config\" config file")
        }
        other => panic!("{other:?}"),
    }

    // Published without its secrets, and sent back as it is.
    let mut published = in_force.clone();
    published.cameras[0].password = None;
    published.users[0].pass = None;
    assert!(matches!(take_config(Ok(published.clone()), &in_force, None), ConfigStep::Ignore));

    published.cameras[0].strict = !published.cameras[0].strict;
    match take_config(Ok(published), &in_force, None) {
        ConfigStep::Apply(next) => {
            assert_ne!(next.cameras[0].strict, in_force.cameras[0].strict);
            assert_eq!(next.cameras[0].password.as_deref(), Some("cam-pass"));
            assert_eq!(next.users[0].pass.as_deref(), Some("a"));
        }
        other => panic!("{other:?}"),
    }
}

#[test]
fn configurations_are_compared_by_what_they_set() {
    let a = config(vec![camera("front", None)], &[("alice", None)]);
    let with_timeout = |seconds: f64| {
        let mut c = a.clone();
        c.cameras[0].pause.motion_timeout_bits = seconds.to_bits();
        c
    };
    assert!(unchanged(&with_timeout(1.0), &with_timeout(1.0)));
    assert!(!unchanged(&with_timeout(1.0), &with_timeout(2.0)));
    assert!(unchanged(&with_timeout(0.0), &with_timeout(-0.0)));
    assert!(!unchanged(&with_timeout(f64::NAN), &with_timeout(f64::NAN)));
    assert!(unchanged(&with_timeout(f64::INFINITY), &with_timeout(f64::INFINITY)));

    let with_features = |features: &[&str]| {
        let mut c = a.clone();
        c.cameras[0].mqtt.discovery = Some(MqttDiscoveryConfig {
            topic: "homeassistant".to_string(),
            features: features.iter().map(|f| f.to_string()).collect(),
        });
        c
    };
    assert!(unchanged(&with_features(&["led", "pir"]), &with_features(&["pir", "led"])));
    assert!(!unchanged(&with_features(&["led", "pir"]), &with_features(&["led"])));
    assert!(!unchanged(&with_features(&["led"]), &a));

    let mut users = a.clone();
    users.users.push(users.users[0].clone());
    assert!(!unchanged(&a, &users));
}

#[test]
fn where_configurations_travel() {
    assert!(is_config("config") && !is_config("config/status"));
    let p = config_message("bind = 1");
    assert_eq!((p.topic, p.message, p.retain), ("config", "bind = 1", true));
    let p = config_status("Ok(())");
    assert_eq!((p.topic, p.message, p.retain), ("config/status", "Ok(())", false));
}

#[test]
fn a_notification_is_published_once() {
    let noti = |message: &str, id: Option<&str>| {
        WatchEvent::Notification(Some(PushNotification {
            message: message.to_string(),
            id: id.map(|i| i.to_string()),
        }))
    };
    let said = |m: &str| vec![("status/notification", m.to_string())];
    let mut seen = Seen::new();
    assert!(published(seen.react(WatchEvent::Notification(None))).is_empty());
    assert_eq!(published(seen.react(noti("ring", None))), said("ring"));
    assert!(published(seen.react(noti("ring", None))).is_empty());
    assert_eq!(published(seen.react(noti("ring", Some("2")))), said("ring"));
    assert_eq!(published(seen.react(noti("gone", Some("2")))), said("gone"));
}
