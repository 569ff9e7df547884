//! The events service.

use std::time::Duration;

use neolink::camera::MdState;
use neolink::onvif::events::{EventsManager, Notification};
use neolink::onvif::services::duration::{parse_termination_string, parse_xs_duration};
use neolink::onvif::services::events::{
    dispatch, dispatch_subscription, format_dt, local_action_only, parse_initial_termination,
    parse_pull_messages, pull_messages_reply, read_wsa_action, render_notification,
    SubscriptionStep,
};
use neolink::time::Timestamp;

/// 2026-08-09 07:30:05 UTC.
const NOW: Timestamp = Timestamp { secs: 1_786_260_605, nanos: 0 };

#[test]
fn parses_xs_duration_minutes() {
    assert_eq!(parse_xs_duration("PT1M").map(Duration::from_secs), Some(Duration::from_secs(60)));
    assert_eq!(parse_xs_duration("PT30S").map(Duration::from_secs), Some(Duration::from_secs(30)));
    assert_eq!(parse_xs_duration("PT1H").map(Duration::from_secs), Some(Duration::from_secs(3600)));
    assert_eq!(
        parse_xs_duration("PT1H30M").map(Duration::from_secs),
        Some(Duration::from_secs(5400))
    );
}

#[test]
fn rejects_negative_xs_duration() {
    // A negative TTL has no sensible meaning for an ONVIF subscription;
    // we must not silently treat it as positive.
    assert_eq!(parse_xs_duration("-PT5S").map(Duration::from_secs), None);
    assert_eq!(parse_xs_duration("-P1D").map(Duration::from_secs), None);
    assert_eq!(parse_termination_string("-PT5S", NOW), None);
}

#[test]
fn parses_initial_termination_relative() {
    let xml = r#"<tev:CreatePullPointSubscription>
        <wsnt:InitialTerminationTime>PT60S</wsnt:InitialTerminationTime>
    </tev:CreatePullPointSubscription>"#;
    assert_eq!(
        parse_initial_termination(xml, NOW).map(Duration::from_secs),
        Some(Duration::from_secs(60))
    );
}

#[test]
fn missing_initial_termination_yields_none() {
    let xml = r#"<tev:CreatePullPointSubscription/>"#;
    assert_eq!(parse_initial_termination(xml, NOW).map(Duration::from_secs), None);
}

#[test]
fn pull_messages_defaults() {
    let xml = r#"<tev:PullMessages/>"#;
    let (t, l) = parse_pull_messages(xml);
    assert_eq!(Duration::from_millis(t), Duration::from_secs(1));
    assert_eq!(l, 16);
}

#[test]
fn pull_messages_with_fields() {
    let xml = r#"<tev:PullMessages>
        <tev:Timeout>PT5S</tev:Timeout>
        <tev:MessageLimit>10</tev:MessageLimit>
    </tev:PullMessages>"#;
    let (t, l) = parse_pull_messages(xml);
    assert_eq!(Duration::from_millis(t), Duration::from_secs(5));
    assert_eq!(l, 10);
}

#[test]
fn extracts_wsa_action() {
    let xml = r#"<env:Envelope xmlns:env="x" xmlns:wsa="y">
        <env:Header>
            <wsa:Action>http://www.onvif.org/ver10/events/wsdl/PullPointSubscription/PullMessagesRequest</wsa:Action>
        </env:Header>
        <env:Body><x:PullMessages/></env:Body>
    </env:Envelope>"#;
    assert!(read_wsa_action(xml).unwrap().contains("PullMessages"));
}

#[test]
fn renders_notification_xml() {
    let n = Notification {
        utc_time: NOW,
        topic: "tns1:VideoSource/MotionAlarm",
        source: vec![("Source", "vsrc_cam1".to_string())],
        data: vec![("State", "true".to_string())],
        property_op: "Changed",
    };
    let xml = render_notification(&n);
    assert!(xml.contains("tns1:VideoSource/MotionAlarm"));
    assert!(xml.contains("State"));
    assert!(xml.contains("true"));
    assert!(xml.contains("vsrc_cam1"));
}

#[test]
fn durations_in_every_unit() {
    assert_eq!(parse_xs_duration("P1D"), Some(86_400));
    assert_eq!(parse_xs_duration("P1DT1S"), Some(86_401));
    assert_eq!(parse_xs_duration("PT0S"), None);
    assert_eq!(parse_xs_duration("P"), None);
    assert_eq!(parse_xs_duration("PT5X"), None);
    assert_eq!(parse_xs_duration("60"), None);
}

#[test]
fn a_termination_may_be_a_point_in_time() {
    assert_eq!(parse_termination_string("2026-08-09T07:31:05Z", NOW), Some(60));
    assert_eq!(parse_termination_string("2026-08-09T14:31:05+07:00", NOW), Some(60));
    assert_eq!(parse_termination_string("2026-08-09T07:29:05Z", NOW), None);
    assert_eq!(parse_termination_string("tomorrow", NOW), None);
}

#[test]
fn times_are_written_to_the_millisecond() {
    assert_eq!(format_dt(NOW), "2026-08-09T07:30:05.000Z");
    assert_eq!(format_dt(Timestamp { secs: NOW.secs, nanos: 45_000_000 }), "2026-08-09T07:30:05.045Z");
}

#[test]
fn prefixes_of_actions_do_not_matter() {
    assert_eq!(local_action_only("tev:PullMessages"), "PullMessages");
    assert_eq!(local_action_only("PullMessages"), "PullMessages");
}

fn open(m: &mut EventsManager) -> String {
    dispatch(m, "CreatePullPointSubscription", "<x/>", "sub-1".to_string(), Ok("10.0.0.2:8000"), NOW)
        .expect("there is room")
}

#[test]
fn a_subscription_lives_through_its_requests() {
    let mut m = EventsManager::new("cam".to_string());
    let xml = open(&mut m);
    assert!(xml.contains("/subscription/sub-1"), "{xml}");
    m.motion_seen(MdState::Start, true, NOW);

    let pull = dispatch_subscription(&mut m, "sub-1", "PullMessages", "<x/>", NOW).unwrap();
    assert!(matches!(pull, SubscriptionStep::Pull { limit: 16, timeout: 1_000 }));
    let at = m.position("sub-1");
    let msgs = m.subs[at].take_pending(16);
    let reply = pull_messages_reply(NOW, m.subs[at].termination_time(), &msgs);
    assert!(reply.contains("MotionAlarm") && reply.contains("Value=\"true\""), "{reply}");

    let body = "<Renew><TerminationTime>PT2M</TerminationTime></Renew>";
    let renewed = dispatch_subscription(&mut m, "sub-1", "Renew", body, NOW).unwrap();
    match renewed {
        SubscriptionStep::Reply(xml) => assert!(xml.contains("2026-08-09T07:32:05"), "{xml}"),
        SubscriptionStep::Pull { .. } => panic!("nothing to pull"),
    }

    assert!(dispatch_subscription(&mut m, "sub-1", "Unsubscribe", "<x/>", NOW).is_ok());
    let gone = dispatch_subscription(&mut m, "sub-1", "PullMessages", "<x/>", NOW).unwrap_err();
    assert_eq!(gone.reason, "Unknown subscription 'sub-1'");
}

#[test]
fn years_of_any_length_are_written() {
    let at = |secs: i64, nanos: u32| format_dt(Timestamp { secs, nanos });
    assert_eq!(at(0, 0), "1970-01-01T00:00:00.000Z");
    assert_eq!(at(NOW.secs, 7_999_999), "2026-08-09T07:30:05.007Z");
    assert_eq!(at(-62_167_219_200, 0), "0000-01-01T00:00:00.000Z");
    assert_eq!(at(-62_167_219_201, 0), "-0001-12-31T23:59:59.000Z");
    assert_eq!(at(253_402_300_800, 999_000_000), "+10000-01-01T00:00:00.999Z");
}

#[test]
fn a_synchronisation_point_repeats_the_current_state() {
    let mut m = EventsManager::new("cam".to_string());
    open(&mut m);
    m.motion_seen(MdState::Start, true, NOW);
    let at = m.position("sub-1");
    assert_eq!(m.subs[at].take_pending(16).len(), 2);
    match dispatch_subscription(&mut m, "sub-1", "SetSynchronizationPoint", "<x/>", NOW).unwrap() {
        SubscriptionStep::Reply(xml) => {
            assert!(xml.contains("<tev:SetSynchronizationPointResponse/>"), "{xml}")
        }
        SubscriptionStep::Pull { .. } => panic!("nothing to pull"),
    }
    let msgs = m.subs[at].take_pending(16);
    assert_eq!(msgs.len(), 2);
    assert_eq!(msgs[0].property_op, "Initialized");
    assert_eq!(msgs[0].data[0].1, "true");
}

#[test]
fn an_expired_subscription_is_dropped() {
    let mut m = EventsManager::new("cam".to_string());
    open(&mut m);
    let later = Timestamp { secs: NOW.secs + 1_000_000, nanos: 0 };
    let gone = dispatch_subscription(&mut m, "sub-1", "PullMessages", "<x/>", later).unwrap_err();
    assert_eq!(gone.reason, "Subscription has expired");
    assert!(m.get("sub-1").is_none());
}

#[test]
fn unknown_requests_are_faults() {
    let mut m = EventsManager::new("cam".to_string());
    assert!(dispatch(&mut m, "Dance", "<x/>", "s".to_string(), Ok("a"), NOW).is_err());
    open(&mut m);
    assert_eq!(
        dispatch_subscription(&mut m, "sub-1", "Pause", "<x/>", NOW).unwrap_err().reason,
        "Subscription action 'Pause' not supported"
    );
    let unreachable =
        dispatch(&mut m, "CreatePullPointSubscription", "<x/>", "s".to_string(), Err("no address"), NOW)
            .unwrap_err();
    assert_eq!(unreachable.reason, "Failed to determine advertise host: no address");
}
