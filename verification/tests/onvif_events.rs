//! Notifications, subscriptions and what the listeners publish.

use neolink::camera::MdState;
use neolink::onvif::events::{
    build_ai_key_notification, build_ai_notification, build_motion_notifications,
    build_zone_notification, detections_now, mdstate_to_bool, pull_deadline,
    too_many_subscriptions, EventsManager, Notification, PullStep, Subscription,
    MAX_PENDING_MESSAGES,
};
use neolink::time::{is_before, Timestamp};

/// 2026-08-09 07:30:05 UTC.
const NOW: Timestamp = Timestamp { secs: 1_786_260_605, nanos: 0 };

fn build_motion_notification(cam_name: &str, state: bool, op: &'static str) -> Notification {
    build_motion_notifications(cam_name, state, op, NOW)
        .into_iter()
        .next()
        .expect("there is always at least one motion topic")
}

fn ready(step: PullStep) -> Vec<Notification> {
    match step {
        PullStep::Ready(msgs) => msgs,
        PullStep::Wait(ms) => panic!("nothing to wait {ms} ms for"),
    }
}

#[test]
fn mdstate_mapping() {
    assert_eq!(mdstate_to_bool(MdState::Unknown), None);
    assert!(matches!(
        mdstate_to_bool(MdState::Start),
        Some(true)
    ));
    assert!(matches!(
        mdstate_to_bool(MdState::Stop),
        Some(false)
    ));
}

/// Motion has to reach both worlds: Reolink's native topic for
/// `reolink_aio`, and the ONVIF-standard cell-motion topic that Frigate,
/// Blue Iris, Synology and Milestone subscribe to instead.
#[test]
fn motion_is_published_on_both_topics() {
    let ns = build_motion_notifications("cam", true, "Changed", NOW);
    let topics: Vec<_> = ns.iter().map(|n| n.topic).collect();
    assert_eq!(
        topics,
        vec![
            "tns1:VideoSource/MotionAlarm",
            "tns1:RuleEngine/CellMotionDetector/Motion"
        ]
    );
    // Both describe the same state, so a client reading both can never see
    // them disagree.
    for n in &ns {
        assert_eq!(n.data[0].1, "true");
        assert_eq!(n.source[0], ("Source", "vsrc_cam".to_string()));
        assert_eq!(n.property_op, "Changed");
    }
}

/// Clients look the data item up by name, and the two topics use different
/// ones; sharing a name would make one of them silently unreadable.
#[test]
fn each_motion_topic_uses_its_own_data_item_name() {
    let ns = build_motion_notifications("cam", false, "Initialized", NOW);
    assert_eq!(ns[0].data[0].0, "State");
    assert_eq!(ns[1].data[0].0, "IsMotion");
    for n in &ns {
        assert_eq!(n.data[0].1, "false");
    }
}

#[test]
fn ai_types_map_to_the_topics_clients_expect() {
    // These exact strings are the rules `reolink_aio` accepts and that
    // Home Assistant's ONVIF integration registers parsers for; getting
    // one wrong silently drops the event. Note `Package`, not
    // `PackageDetect`.
    for (ai_type, topic) in [
        ("people", "tns1:RuleEngine/MyRuleDetector/PeopleDetect"),
        ("vehicle", "tns1:RuleEngine/MyRuleDetector/VehicleDetect"),
        ("dog_cat", "tns1:RuleEngine/MyRuleDetector/DogCatDetect"),
        ("face", "tns1:RuleEngine/MyRuleDetector/FaceDetect"),
        ("visitor", "tns1:RuleEngine/MyRuleDetector/Visitor"),
        ("package", "tns1:RuleEngine/MyRuleDetector/Package"),
    ] {
        let n = build_ai_notification("cam", ai_type, true, "Changed", NOW)
            .unwrap_or_else(|| panic!("{} should map to a topic", ai_type));
        assert_eq!(n.topic, topic, "{}", ai_type);
        // `reolink_aio` looks the data item up by name, so this must be
        // `State` and not an invented `IsPeople`-style name.
        assert_eq!(n.data[0].0, "State", "{}", ai_type);
        assert_eq!(n.data[0].1, "true", "{}", ai_type);
        // The parsers look the video source up by an item literally named
        // "Source".
        assert_eq!(n.source[0].0, "Source", "{}", ai_type);
    }
}

#[test]
fn cry_maps_to_the_audio_topic() {
    let n = build_ai_notification("cam", "cry", true, "Changed", NOW).expect("cry should map");
    assert_eq!(n.topic, "tns1:AudioAnalytics/Audio/DetectedSound");
    let names: Vec<_> = n.source.iter().map(|(name, _)| *name).collect();
    assert_eq!(
        names,
        vec![
            "AudioSourceConfigurationToken",
            "AudioAnalyticsConfigurationToken",
            "Rule"
        ]
    );
}

#[test]
fn ai_types_without_a_standard_topic_are_skipped() {
    // Published over MQTT, but there is no ONVIF topic a VMS would parse.
    assert!(build_ai_notification("cam", "non-motor vehicle", true, "Changed", NOW).is_none());
}

#[test]
fn smart_ai_zones_map_to_field_detection_with_a_rule() {
    let n = build_zone_notification("cam", "crossline", true, "Changed", NOW);
    assert_eq!(n.topic, "tns1:RuleEngine/FieldDetector/ObjectsInside");
    assert_eq!(n.source[2], ("Rule", "crossline".to_string()));
    assert_eq!(n.data[0].1, "true");
}

#[test]
fn subscription_enqueue_and_pull() {
    let mut sub = Subscription::new("x".into(), 60, NOW);
    sub.enqueue(build_motion_notification("cam", true, "Changed"));
    let msgs = ready(sub.pull(10, 0, pull_deadline(0, 50), NOW));
    assert_eq!(msgs.len(), 1);
    assert_eq!(msgs[0].data[0].1, "true");
}

#[test]
fn subscription_pull_times_out() {
    let mut sub = Subscription::new("x".into(), 60, NOW);
    let deadline = pull_deadline(1_000, 50);
    assert!(matches!(sub.pull(10, 1_000, deadline, NOW), PullStep::Wait(50)));
    assert!(matches!(sub.pull(10, 1_040, deadline, NOW), PullStep::Wait(10)));
    let msgs = ready(sub.pull(10, 1_050, deadline, NOW));
    assert!(msgs.is_empty());
}

#[test]
fn renew_extends_termination() {
    let mut sub = Subscription::new("x".into(), 1, NOW);
    let first = sub.termination_time();
    let second = sub.renew(10, Timestamp { secs: NOW.secs, nanos: NOW.nanos + 20_000_000 });
    assert!(is_before(first, second));
    assert_eq!(sub.termination_time(), second);
}

#[test]
fn queue_overflow_drops_oldest() {
    let mut sub = Subscription::new("x".into(), 60, NOW);
    for i in 0..(MAX_PENDING_MESSAGES + 5) {
        let mut n = build_motion_notification("cam", i % 2 == 0, "Changed");
        n.data[0].1 = i.to_string();
        sub.enqueue(n);
    }
    let msgs = ready(sub.pull(MAX_PENDING_MESSAGES + 10, 0, pull_deadline(0, 50), NOW));
    assert_eq!(msgs.len(), MAX_PENDING_MESSAGES);
    // The oldest 5 should have been dropped.
    assert_eq!(msgs[0].data[0].1, "5");
}

fn state(key: &str, on: bool) -> (String, bool) {
    (key.to_string(), on)
}

#[test]
fn a_detector_keeps_its_kind_in_its_key() {
    let n = build_ai_key_notification("cam", "people", true, "Changed", NOW).unwrap();
    assert_eq!(n.topic, "tns1:RuleEngine/MyRuleDetector/PeopleDetect");
    assert!(build_ai_key_notification("cam", "sofa", true, "Changed", NOW).is_none());
}

/// A detector that is no longer mentioned is clear.
#[test]
fn silent_detectors_are_clear() {
    let current = detections_now(&vec![state("people", true)], &vec![], &vec![state("face", true)]);
    assert!(current.contains(&state("people", true)));
    assert!(current.contains(&state("face", false)));
    assert_eq!(current.len(), 2);
}

#[test]
fn a_new_subscription_learns_the_current_state() {
    let mut m = EventsManager::new("cam".to_string());
    m.motion_seen(MdState::Start, true, NOW);
    m.detections_seen(&vec![state("people", true)], &vec![], NOW);
    let created = m.create_subscription(Some(60), "one".to_string(), NOW).unwrap();
    assert!(created.start_listeners);
    assert_eq!(created.terminates_at.secs, NOW.secs + 60);
    let msgs = m.get("one").unwrap();
    let topics: Vec<_> = msgs.pending.iter().map(|n| n.topic).collect();
    assert_eq!(
        topics,
        vec![
            "tns1:VideoSource/MotionAlarm",
            "tns1:RuleEngine/CellMotionDetector/Motion",
            "tns1:RuleEngine/MyRuleDetector/PeopleDetect"
        ]
    );
    assert!(msgs.pending.iter().all(|n| n.property_op == "Initialized"));
    let again = m.create_subscription(Some(60), "two".to_string(), NOW).unwrap();
    assert!(!again.start_listeners, "they are running already");
}

#[test]
fn repeated_states_are_silent() {
    let mut m = EventsManager::new("cam".to_string());
    m.create_subscription(Some(60), "one".to_string(), NOW).unwrap();
    m.detections_seen(&vec![state("people", true)], &vec![], NOW);
    let seen = m.get("one").unwrap().pending.len();
    assert_eq!(seen, 1);
    m.detections_seen(&vec![state("people", true)], &vec![], NOW);
    assert_eq!(m.get("one").unwrap().pending.len(), seen);
    m.detections_seen(&vec![], &vec![], NOW);
    let pending = &m.get("one").unwrap().pending;
    assert_eq!(pending.len(), seen + 1);
    assert_eq!(pending[seen].data[0].1, "false");
}

#[test]
fn dropped_and_expired_subscriptions_are_gone() {
    let mut m = EventsManager::new("cam".to_string());
    m.create_subscription(Some(10), "one".to_string(), NOW).unwrap();
    m.create_subscription(Some(1000), "two".to_string(), NOW).unwrap();
    assert!(m.remove("one"));
    assert!(!m.remove("one"));
    assert!(m.get("one").is_none());
    m.reap_expired(Timestamp { secs: NOW.secs + 1001, nanos: 0 });
    assert!(m.get("two").is_none());
}

#[test]
fn subscriptions_are_limited() {
    let mut m = EventsManager::new("cam".to_string());
    let mut granted = 0;
    while m.create_subscription(Some(60), format!("s{granted}"), NOW).is_ok() {
        granted += 1;
        assert!(granted < 1000, "there has to be a limit");
    }
    assert_eq!(m.subs.len(), granted);
    assert_eq!(
        too_many_subscriptions("cam"),
        "ONVIF events: too many active subscriptions for camera cam"
    );
    // The ones that ran out make room.
    let later = Timestamp { secs: NOW.secs + 61, nanos: 0 };
    assert!(m.create_subscription(Some(60), "later".to_string(), later).is_ok());
    assert_eq!(m.subs.len(), 1);
}

#[test]
fn resynchronising_repeats_the_current_state() {
    let mut m = EventsManager::new("cam".to_string());
    m.create_subscription(Some(60), "one".to_string(), NOW).unwrap();
    m.motion_seen(MdState::Stop, true, NOW);
    let before = m.get("one").unwrap().pending.len();
    let at = m.position("one");
    m.resync(at, NOW);
    assert_eq!(m.get("one").unwrap().pending.len(), before + 2);
}

#[test]
fn a_pull_refreshes_an_end_that_is_past() {
    let mut sub = Subscription::new("x".to_string(), 60, NOW);
    let soon = Timestamp { secs: NOW.secs + 59, nanos: 0 };
    sub.pull(10, 0, 0, soon);
    assert_eq!(sub.termination_time().secs, NOW.secs + 60);
    let later = Timestamp { secs: NOW.secs + 61, nanos: 0 };
    sub.pull(10, 0, 50, later);
    assert_eq!(sub.termination_time().secs, later.secs + 300);
}
