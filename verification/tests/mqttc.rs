//! Requests to the broker.

use std::sync::Arc;

use neolink::config::MqttServerConfig;
use neolink::mqtt::mqttc::{
    backend_step, choose_tls, last_will_options, main_options, publication_of, publish_request,
    BackendAction, BackendEvent, MqttInstance, MqttReply, MqttRequest, Reconnect,
};

fn message(topic: &str) -> MqttReply {
    MqttReply { topic: topic.to_string(), message: Arc::new("payload".to_string()) }
}

/// Offers the pending request to a client, as the sending loop does.
fn offer(client: &rumqttc::AsyncClient, pending: &mut Option<MqttRequest>) -> bool {
    let accepted = match publication_of(pending) {
        Some(p) => client
            .try_publish(p.topic, rumqttc::QoS::AtLeastOnce, p.retain, p.message.as_bytes())
            .is_ok(),
        None => false,
    };
    publish_request(pending, accepted)
}

#[test]
fn publish_request_acknowledges_the_sender() {
    let (client, _eventloop) =
        rumqttc::AsyncClient::new(rumqttc::MqttOptions::new("test", "localhost", 1883), 10);
    let mut pending = Some(MqttRequest::Send(message("neolink/status")));

    let acknowledged = offer(&client, &mut pending);

    assert!(pending.is_none(), "an accepted request is not requeued");
    assert!(acknowledged);
}

/// A request in flight when the connection goes away stays with its sender.
#[test]
fn publish_request_keeps_the_request_when_the_connection_is_gone() {
    let (client, eventloop) =
        rumqttc::AsyncClient::new(rumqttc::MqttOptions::new("test", "localhost", 1883), 10);
    drop(eventloop);
    let mut pending = Some(MqttRequest::SendRetained(message("neolink/status")));

    let acknowledged = offer(&client, &mut pending);

    assert!(
        matches!(pending, Some(MqttRequest::SendRetained(..))),
        "a refused request stays intact so it can be requeued"
    );
    assert!(!acknowledged, "the sender is left waiting rather than failed");
}

#[test]
fn a_broker_that_stays_down_is_tried_ever_more_slowly() {
    let mut reconnect = Reconnect::new();
    let mut waits = Vec::new();
    for _ in 0..7 {
        waits.push(reconnect.failed(0));
    }
    assert_eq!(waits, vec![2_000, 4_000, 8_000, 16_000, 32_000, 60_000, 60_000]);
    assert_eq!(reconnect.failed(60_000), 2_000, "a healthy connection starts over");
}

/// What one camera publishes comes back to it and to no other.
#[test]
fn topics_come_back_to_their_camera() {
    let porch = MqttInstance { name: "Porch".to_string() };
    let garden = MqttInstance { name: "Garden".to_string() };
    let request = Some(porch.send_message("status/motion", "on", true));
    let sent = publication_of(&request).unwrap();
    assert_eq!(sent.topic, "neolink/Porch/status/motion");
    assert_eq!(sent.message, "on");
    assert!(sent.retain);
    for (instance, heard) in [(&porch, true), (&garden, false)] {
        let action = backend_step(BackendEvent::Published {
            topic: sent.topic.to_string(),
            payload: sent.message.as_bytes().to_vec(),
        });
        let reply = match action {
            BackendAction::Deliver(reply) => reply,
            _ => panic!("a message under the root is delivered"),
        };
        let received = instance.recv(reply);
        assert_eq!(received.is_some(), heard);
        if let Some(received) = received {
            assert_eq!(received.as_ref().topic, "status/motion");
            assert_eq!(received.as_ref().message, "on");
        }
    }
}

#[test]
fn payloads_are_read_as_text_whatever_they_hold() {
    let action = backend_step(BackendEvent::Published {
        topic: "neolink/x".to_string(),
        payload: vec![b'a', 0xff, b'b'],
    });
    match action {
        BackendAction::Deliver(reply) => assert_eq!(reply.as_ref().message, "a\u{fffd}b"),
        _ => panic!("a message under the root is delivered"),
    }
    let elsewhere = backend_step(BackendEvent::Published { topic: "other/x".to_string(), payload: vec![] });
    assert!(matches!(elsewhere, BackendAction::Nothing));
}

#[test]
fn events_of_a_connection() {
    match backend_step(BackendEvent::ConnAck { success: true }) {
        BackendAction::Greet { greeting, filter } => {
            assert_eq!((greeting.topic, greeting.message), ("neolink/status", "connected"));
            assert!(greeting.retain);
            assert_eq!(filter, "neolink/#");
        }
        other => panic!("{other:?}"),
    }
    assert!(matches!(backend_step(BackendEvent::ConnAck { success: false }), BackendAction::Nothing));
    assert!(matches!(backend_step(BackendEvent::PollFailed), BackendAction::Fail));
    assert!(matches!(backend_step(BackendEvent::QueueClosed), BackendAction::Fail));
    assert!(matches!(backend_step(BackendEvent::Other), BackendAction::Nothing));
    match backend_step(BackendEvent::Request(MqttRequest::HangUp)) {
        BackendAction::SayGoodbye(farewell) => {
            assert_eq!((farewell.topic, farewell.message), ("neolink/status", "disconnected"));
            assert!(farewell.retain);
        }
        other => panic!("{other:?}"),
    }
    assert!(matches!(
        backend_step(BackendEvent::Request(MqttRequest::Send(message("a")))),
        BackendAction::Publish(MqttRequest::Send(..))
    ));
}

#[test]
fn connections_leave_a_will() {
    let broker = MqttServerConfig {
        broker_addr: "broker.lan".to_string(),
        port: 1884,
        credentials: Some(("me".to_string(), "SECRET".to_string())),
        ca: None,
        client_auth: None,
    };
    let options = main_options(&broker, "0001");
    assert_eq!(options.client_id, "Neolink0001");
    assert_eq!((options.broker_addr.as_str(), options.port), ("broker.lan", 1884));
    assert_eq!(options.max_packet_size, 100 * 1024 * 1024);
    assert_eq!((options.will_topic.as_str(), options.will_message.as_str()), ("neolink/status", "offline"));
    assert!(options.credentials.is_some());
    let options = last_will_options(&broker, "neolink/Porch/status", "disconnected", "0002");
    assert_eq!(options.client_id, "NeolinkLastWill_neolink/Porch/status_0002");
    assert_eq!(options.will_message, "disconnected");
}

#[test]
fn encryption_needs_an_authority() {
    assert!(choose_tls(None, Some(vec![1]), Some(vec![2])).is_none());
    let parts = choose_tls(Some(vec![9]), Some(vec![1]), None).unwrap();
    assert_eq!(parts.ca, vec![9]);
    assert!(parts.client_auth.is_none());
    let parts = choose_tls(Some(vec![9]), Some(vec![1]), Some(vec![2])).unwrap();
    assert_eq!(parts.client_auth, Some((vec![1], vec![2])));
}
