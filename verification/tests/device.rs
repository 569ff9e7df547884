//! The device service.

use neolink::camera::LightState;
use neolink::onvif::capabilities::{resolve, CameraCapabilities, Probe};
use neolink::onvif::services::device::{
    advance, clock_from_general, dispatch, drive_relay, needs, parse_set_system_date_and_time,
    posix_tz, relay_outputs, render_system_date_and_time, scope_safe, synthetic_mac,
    write_camera_clock, ClockCache, DeviceCommand, DeviceFacts, RelayKind, SystemGeneral, Version,
};
use neolink::onvif::soap::{FaultCode, UserTable};
use neolink::onvif::state::DeviceUuid;
use neolink::time::Timestamp;

/// 2026-08-09 07:30:05 UTC.
const NOW: Timestamp = Timestamp { secs: 1_786_260_605, nanos: 0 };

fn identity(name: &[u8]) -> DeviceUuid {
    DeviceUuid { bytes: uuid::Uuid::new_v5(&uuid::Uuid::NAMESPACE_OID, name).into_bytes() }
}

fn caps_with(floodlight: bool, led_ctrl: bool) -> CameraCapabilities {
    resolve(&Probe {
        floodlight: Some(floodlight),
        support_led_ctrl: Some(led_ctrl),
        ..Default::default()
    })
}

/// A relay that cannot do anything is worse than a missing one: the client
/// draws a working-looking switch that fails the moment it is pressed.
#[test]
fn relays_are_gated_on_the_capability_probe() {
    let bare = relay_outputs(&caps_with(false, false));
    let tokens: Vec<_> = bare.iter().map(|r| r.token).collect();
    assert_eq!(tokens, vec!["relay_siren"], "only the always-there siren");

    let full = relay_outputs(&caps_with(true, true));
    let tokens: Vec<_> = full.iter().map(|r| r.token).collect();
    assert_eq!(
        tokens,
        vec![
            "relay_floodlight",
            "relay_siren",
            "relay_ir_illuminator",
            "relay_status_led"
        ]
    );
}

/// The siren fires once and stops by itself, so it must not be advertised
/// as a latching switch the user has to remember to turn off.
#[test]
fn the_siren_is_monostable_and_the_lights_are_not() {
    let all = relay_outputs(&caps_with(true, true));
    let mode = |token| {
        all.iter()
            .find(|r| r.token == token)
            .unwrap_or_else(|| panic!("{} should exist", token))
            .mode
    };
    assert_eq!(mode("relay_siren"), "Monostable");
    assert_eq!(mode("relay_floodlight"), "Bistable");
    assert_eq!(mode("relay_ir_illuminator"), "Bistable");
}

#[test]
fn a_relay_renders_under_the_requested_element() {
    let all = relay_outputs(&caps_with(true, false));
    let xml = all[0].render("tds:RelayOutputs");
    assert!(
        xml.starts_with("<tds:RelayOutputs token=\"relay_floodlight\">"),
        "{}",
        xml
    );
    assert!(xml.contains("<tt:Mode>Bistable</tt:Mode>"), "{}", xml);
    assert!(xml.ends_with("</tds:RelayOutputs>"), "{}", xml);
}

/// POSIX inverts the sign of a UTC offset, and so does the camera's
/// `timeZone`, so the value passes straight through. Getting this backwards
/// would put every camera's reported time zone on the wrong side of UTC.
#[test]
fn posix_tz_keeps_the_inverted_sign() {
    // Reolink reports -25200 for UTC+7.
    assert_eq!(posix_tz(-25200), "UTC-07:00");
    // ...and +18000 for UTC-5.
    assert_eq!(posix_tz(18000), "UTC+05:00");
    assert_eq!(posix_tz(0), "UTC+00:00");
    // Half-hour and quarter-hour zones exist (India, Nepal, Chatham).
    assert_eq!(posix_tz(-19800), "UTC-05:30");
}

fn general_at(time_zone: i32) -> SystemGeneral {
    SystemGeneral {
        time_zone: Some(time_zone),
        year: Some(2026),
        month: Some(8),
        day: Some(9),
        hour: Some(14),
        minute: Some(30),
        second: Some(0),
        ..Default::default()
    }
}

/// The camera reports local wall-clock time plus a west-of-UTC offset.
#[test]
fn the_camera_clock_is_converted_to_real_utc() {
    // UTC+7: local 14:30 is 07:30 UTC.
    let clock = clock_from_general(&general_at(-25200)).expect("all fields present");
    assert_eq!(clock.utc_fields().hour, 7);
    assert_eq!(clock.utc_fields().minute, 30);
    assert_eq!(clock.utc_fields().day, 9);

    // UTC-5: local 14:30 is 19:30 UTC.
    let clock = clock_from_general(&general_at(18000)).expect("all fields present");
    assert_eq!(clock.utc_fields().hour, 19);
    assert_eq!(clock.utc_fields().day, 9);
}

/// Between samples the reading advances with the bridge's own clock, so a
/// client polling every few seconds sees time move rather than a value
/// frozen at the last camera read.
#[test]
fn a_cached_clock_keeps_ticking() {
    let clock = clock_from_general(&general_at(0)).expect("all fields present");
    // 14:30 plus ninety minutes, so the hour rolls over too.
    let later = advance(clock, 90 * 60);
    assert_eq!(later.utc_fields().hour, 16);
    assert_eq!(later.utc_fields().minute, 0);
    assert_eq!(
        later.posix_offset_seconds, clock.posix_offset_seconds,
        "the zone is a setting, not something that ticks"
    );
}

/// A camera on an older firmware may leave fields out; that is a fallback
/// to the bridge clock, not a panic or a nonsense date.
#[test]
fn a_partial_general_block_yields_no_clock() {
    let mut g = general_at(0);
    g.hour = None;
    assert!(clock_from_general(&g).is_none());

    let mut g = general_at(0);
    g.time_zone = None;
    assert!(clock_from_general(&g).is_none());

    // A date the calendar doesn't have is not a clock either.
    let mut g = general_at(0);
    g.month = Some(13);
    assert!(clock_from_general(&g).is_none());
}

/// The response has to carry both readings, and they must be consistent
/// with the zone it reports.
#[test]
fn the_date_and_time_response_carries_utc_and_local() {
    let clock = clock_from_general(&general_at(-25200));
    let xml = render_system_date_and_time(clock, NOW);
    assert!(xml.contains("<tt:TZ>UTC-07:00</tt:TZ>"), "{}", xml);
    // UTC 07:30 ...
    assert!(
        xml.contains("<tt:UTCDateTime><tt:Time><tt:Hour>7</tt:Hour>"),
        "{}",
        xml
    );
    // ... local 14:30.
    assert!(
        xml.contains("<tt:LocalDateTime><tt:Time><tt:Hour>14</tt:Hour>"),
        "{}",
        xml
    );
}

/// `GetSystemDateAndTime` is the unauthenticated probe every client opens
/// with, so a silent camera still has to produce a well-formed answer.
#[test]
fn a_silent_camera_still_gets_a_valid_date_and_time() {
    let xml = render_system_date_and_time(None, NOW);
    assert!(xml.contains("<tt:TZ>UTC+00:00</tt:TZ>"), "{}", xml);
    assert!(xml.contains("<tt:UTCDateTime>"), "{}", xml);
    assert!(xml.contains("<tt:LocalDateTime>"), "{}", xml);
}

/// Home Assistant keys its device registry on the MAC, so two cameras
/// behind the same bridge must not share one; and it must survive a
/// restart, since it is derived from the same stable UUID the rest of the
/// device identity uses.
#[test]
fn each_camera_gets_its_own_stable_locally_administered_mac() {
    let a = identity(b"driveway");
    let b = identity(b"shed");
    assert_ne!(synthetic_mac(&a), synthetic_mac(&b));
    assert_eq!(synthetic_mac(&a), synthetic_mac(&a), "stable");

    // Locally administered (0x02 set) and unicast (0x01 clear), so it can
    // never collide with a real vendor-assigned address.
    let first = u8::from_str_radix(&synthetic_mac(&a)[0..2], 16).expect("hex");
    assert_eq!(first & 0x02, 0x02, "locally administered");
    assert_eq!(first & 0x01, 0x00, "unicast");
}

#[test]
fn set_system_date_and_time_reads_the_utc_block() {
    let body = "<tds:SetSystemDateAndTime><tds:DateTimeType>Manual</tds:DateTimeType>\
<tds:DaylightSavings>false</tds:DaylightSavings>\
<tds:UTCDateTime><tt:Time><tt:Hour>7</tt:Hour><tt:Minute>30</tt:Minute><tt:Second>5</tt:Second></tt:Time>\
<tt:Date><tt:Year>2026</tt:Year><tt:Month>8</tt:Month><tt:Day>9</tt:Day></tt:Date>\
</tds:UTCDateTime></tds:SetSystemDateAndTime>";
    let parsed = parse_set_system_date_and_time(body).expect("a manual time is usable");
    let parsed = chrono::DateTime::from_timestamp(parsed, 0).expect("a time in the calendar");
    assert_eq!(parsed.to_rfc3339(), "2026-08-09T07:30:05+00:00");
}

/// A client asking for NTP sends no UTCDateTime, and the bridge cannot
/// configure NTP on the camera; so this has to be a clear fault rather
/// than a silently ignored request.
#[test]
fn an_ntp_request_has_no_time_to_apply() {
    let body = "<tds:SetSystemDateAndTime><tds:DateTimeType>NTP</tds:DateTimeType>\
</tds:SetSystemDateAndTime>";
    assert!(parse_set_system_date_and_time(body).is_none());
}

/// What is written to a camera's clock is read back from it, whatever its zone.
#[test]
fn a_written_clock_reads_back() {
    for zone in [-25200, 0, 18000, -19800] {
        let written = write_camera_clock(general_at(zone), NOW.secs);
        let clock = clock_from_general(&written).expect("all fields present");
        assert_eq!(clock.utc, NOW.secs);
        assert_eq!(clock.posix_offset_seconds, zone);
    }
}

#[test]
fn a_clock_is_sampled_now_and_then() {
    let clock = clock_from_general(&general_at(0)).unwrap();
    let mut cache = ClockCache::new();
    assert!(cache.recent(0).is_none());
    cache.store(10_000, clock);
    assert_eq!(cache.recent(13_000).unwrap().utc, clock.utc + 3);
    assert!(cache.recent(10_000_000).is_none());
    cache.invalidate();
    assert!(cache.recent(10_000).is_none());
}

#[test]
fn relays_drive_what_they_stand_for() {
    assert!(matches!(
        drive_relay(RelayKind::Floodlight, true),
        Some(DeviceCommand::Floodlight { on: true, .. })
    ));
    assert_eq!(drive_relay(RelayKind::Siren, true), Some(DeviceCommand::Siren));
    assert_eq!(drive_relay(RelayKind::Siren, false), None);
    assert_eq!(drive_relay(RelayKind::IrLed, false), Some(DeviceCommand::SetIrLed(LightState::Off)));
    assert_eq!(drive_relay(RelayKind::StatusLed, true), Some(DeviceCommand::SetStatusLed(true)));
}

fn users(names: &[&str]) -> UserTable {
    let mut table = UserTable::new();
    for name in names {
        table.insert(name.to_string(), "SECRET".to_string());
    }
    table
}

fn ask(action: &str, body: &str) -> Result<(Option<DeviceCommand>, String), (FaultCode, String)> {
    let table = users(&["alice", "bob"]);
    let permitted = Some(vec!["bob".to_string()]);
    let uuid = identity(b"driveway");
    let version = Version {
        model: Some("RLC-<1>".to_string()),
        firmware_version: "v1".to_string(),
        serial_number: "00".to_string(),
        hardware_version: "hw".to_string(),
    };
    let facts = DeviceFacts {
        cam_name: "drive way",
        uuid: &uuid,
        permitted_users: &permitted,
        users: &table,
        caps: caps_with(false, true),
        version: Some(&version),
        clock: None,
        now: NOW,
        authority: Ok("10.0.0.2:8000"),
        host: Err("no address"),
    };
    match dispatch(&facts, action, body) {
        Ok(answer) => Ok((answer.command, answer.xml)),
        Err(f) => Err((f.code, f.reason)),
    }
}

#[test]
fn device_information_is_escaped() {
    let (command, xml) = ask("GetDeviceInformation", "").unwrap();
    assert_eq!(command, None);
    assert!(xml.contains("<tds:Model>RLC-&lt;1&gt;</tds:Model>"), "{xml}");
    assert!(xml.contains("<tds:Manufacturer>Reolink</tds:Manufacturer>"), "{xml}");
}

#[test]
fn only_permitted_users_are_listed() {
    let (_, xml) = ask("GetUsers", "").unwrap();
    assert!(xml.contains("bob") && !xml.contains("alice"), "{xml}");
}

#[test]
fn commands_come_with_their_answers() {
    assert_eq!(ask("SystemReboot", "").unwrap().0, Some(DeviceCommand::Reboot));
    let body = "<SetRelayOutputState><RelayOutputToken>relay_siren</RelayOutputToken>\
<LogicalState>active</LogicalState></SetRelayOutputState>";
    assert_eq!(ask("SetRelayOutputState", body).unwrap().0, Some(DeviceCommand::Siren));
    let hidden = body.replace("relay_siren", "relay_floodlight");
    assert!(ask("SetRelayOutputState", &hidden).is_err(), "it is not offered");
    assert!(ask("MakeCoffee", "").is_err());
}

#[test]
fn a_fact_that_is_missing_is_a_fault_only_where_it_is_needed() {
    assert!(needs("GetNetworkInterfaces").host);
    let (_, reason) = ask("GetNetworkInterfaces", "").unwrap_err();
    assert!(reason.contains("no address"), "{reason}");
    assert!(!needs("GetCapabilities").host && needs("GetCapabilities").authority);
    let (_, xml) = ask("GetCapabilities", "").unwrap();
    assert!(xml.contains("http://10.0.0.2:8000/onvif/drive%20way/"), "{xml}");
}

#[test]
fn scopes_hold_no_white_space() {
    assert_eq!(scope_safe("drive way"), "drive_way");
}

/// A local date and time says nothing about UTC.
#[test]
fn a_local_time_is_not_taken_for_utc() {
    let fields = "<tt:Time><tt:Hour>7</tt:Hour><tt:Minute>30</tt:Minute><tt:Second>5</tt:Second>\
</tt:Time><tt:Date><tt:Year>2026</tt:Year><tt:Month>8</tt:Month><tt:Day>9</tt:Day></tt:Date>";
    let local = format!("<S><LocalDateTime>{fields}</LocalDateTime></S>");
    assert_eq!(parse_set_system_date_and_time(&local), None);
    let both = format!(
        "<S><LocalDateTime><Hour>1</Hour><Year>1999</Year></LocalDateTime>\
<t:UTCDateTime>{fields}</t:UTCDateTime></S>"
    );
    assert_eq!(parse_set_system_date_and_time(&both), Some(NOW.secs));
    assert_eq!(parse_set_system_date_and_time(&format!("<S>{fields}</S>")), None);
}
