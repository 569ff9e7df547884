//! Waiting, pinging and small texts.

use neolink::common::backoff::Backoff;
use neolink::common::camthread::{
    ping_timeout_reason, update_camera_time, CameraEnd, CameraRun, CameraStep, Ping, PingStep,
    Pings,
};
use neolink::text::{
    append_two_digits, contains, csv_u8, parse_number, parse_signed, replace, split, split_words,
    trim,
};
use neolink::xml::{local_name, read_attributes, read_events, read_first_text_element, XmlEvent};

#[test]
fn delays_double_up_to_a_limit() {
    let mut backoff = Backoff::new(3, 20);
    let delays: Vec<u64> = (0..5).map(|_| backoff.next()).collect();
    assert_eq!(delays, vec![3, 6, 12, 20, 20]);
    backoff.reset();
    assert_eq!(backoff.next(), 3);
}

#[test]
fn a_camera_gets_five_strikes() {
    let mut pings = Pings::new(0);
    for _ in 0..5 {
        assert_eq!(pings.notice(Ping::TimedOut, 10_000, 15_000), PingStep::Missed);
    }
    assert_eq!(pings.notice(Ping::TimedOut, 20_000, 25_000), PingStep::Dead(20));
    assert_eq!(pings.notice(Ping::Answered, 30_000, 30_001), PingStep::Stable(30));
    assert_eq!(pings.missed, 0);
    assert_eq!(pings.notice(Ping::Failed, 33_001, 33_002), PingStep::Broken(3));
    assert_eq!(pings.notice(Ping::Unsupported, 0, 0), PingStep::Silent);
    assert_eq!(ping_timeout_reason(), "Timed out waiting for camera ping reply");
}

#[test]
fn a_lost_camera_is_tried_ever_more_slowly() {
    let mut run = CameraRun::new();
    let mut waits = Vec::new();
    for _ in 0..9 {
        match run.ended(CameraEnd::Lost, 0) {
            CameraStep::Wait(ms) => waits.push(ms),
            other => panic!("no wait: {other:?}"),
        }
    }
    assert_eq!(waits, vec![50, 100, 200, 400, 800, 1600, 3200, 5000, 5000]);
    assert_eq!(run.ended(CameraEnd::Lost, 60_001), CameraStep::Wait(50));
    assert_eq!(run.ended(CameraEnd::Reload, 0), CameraStep::Again);
    assert_eq!(run.ended(CameraEnd::Shutdown, 0), CameraStep::Finish);
    assert_eq!(run.ended(CameraEnd::LoginFailed, 0), CameraStep::GiveUp);
    assert!(update_camera_time(false, false));
    assert!(!update_camera_time(true, false));
}

#[test]
fn texts_are_taken_apart() {
    assert_eq!(trim(" \t a b \u{2003}\n"), "a b");
    assert_eq!(split_words(" a  b\tc "), vec!["a", "b", "c"]);
    assert_eq!(split("a,,b", ','), vec!["a", "", "b"]);
    assert!(contains("haystack", "sta") && !contains("haystack", "stay"));
    assert_eq!(replace("aXbXX", "X", "--"), "a--b----");
    assert_eq!(csv_u8(&[1, 2, 255]), "1,2,255");
}

#[test]
fn numbers_are_read_strictly() {
    assert_eq!(parse_number("042", 255), Some(42));
    assert_eq!(parse_number("+7", 255), Some(7));
    assert_eq!(parse_number("256", 255), None);
    assert_eq!(parse_number("", 255), None);
    assert_eq!(parse_number(" 1", 255), None);
    assert_eq!(parse_signed("-9223372036854775808", i64::MIN, i64::MAX), Some(i64::MIN));
    assert_eq!(parse_signed("9223372036854775808", i64::MIN, i64::MAX), None);
    assert_eq!(parse_signed("-", i64::MIN, i64::MAX), None);
    let mut out = String::new();
    append_two_digits(&mut out, 7);
    append_two_digits(&mut out, 42);
    assert_eq!(out, "0742");
}

#[test]
fn documents_are_read_in_order() {
    let items = read_events("<a:x k=\"1&amp;2\" b:l='y'>t &lt;<y/></a:x>");
    let tag = match &items[0].event {
        XmlEvent::Start(tag) => tag,
        other => panic!("no tag: {other:?}"),
    };
    let attributes = read_attributes(tag);
    assert_eq!(attributes.len(), 2);
    assert_eq!(attributes[0].key, b"k");
    assert_eq!(attributes[0].value.as_deref(), Some("1&2"));
    assert_eq!(local_name(&attributes[1].key), "l");
    assert!(items.iter().any(|i| matches!(&i.event, XmlEvent::Empty(_))));
    assert_eq!(read_first_text_element("<r><a:x>t &lt;</a:x></r>", "x").as_deref(), Some("t <"));
    assert_eq!(read_first_text_element("<r><x/></r>", "y"), None);
}
