use ceammc_net::pubsub::{
    client_settings, connack_rc, poll_outcome, qos2qos, request_rc, mqtt_qos, mqtt_rc,
    MqttDispatch, PollEvent, DEFAULT_PORT, KEEP_ALIVE_SECS, REQUEST_CAPACITY,
};
use ceammc_net::pubsub::{connect_client, publish, subscribe, unsubscribe};
use rumqttc::{ConnectReturnCode, QoS};

#[test]
fn quiet_window_is_success() {
    let r = poll_outcome(PollEvent::Timeout);
    assert_eq!(r.rc, mqtt_rc::Success);
    assert!(r.dispatch.is_none());
}

#[test]
fn connection_failures_have_own_codes() {
    assert_eq!(poll_outcome(PollEvent::Disconnected).rc, mqtt_rc::Disconnected);
    assert_eq!(poll_outcome(PollEvent::NetworkTimeout).rc, mqtt_rc::NetworkTimeout);
    assert_eq!(poll_outcome(PollEvent::FlushTimeout).rc, mqtt_rc::FlushTimeout);
    assert_eq!(poll_outcome(PollEvent::ConnectionRefused).rc, mqtt_rc::ConnectionRefused);
    assert_eq!(poll_outcome(PollEvent::ConnectionReset).rc, mqtt_rc::ConnectionReset);
    assert_eq!(poll_outcome(PollEvent::ConnectionFailed).rc, mqtt_rc::ConnectionError);
    assert!(poll_outcome(PollEvent::ConnectionFailed).dispatch.is_none());
}

#[test]
fn inbound_events_dispatched() {
    assert!(matches!(poll_outcome(PollEvent::PingResp).dispatch, Some(MqttDispatch::Ping)));
    let r = poll_outcome(PollEvent::Publish("a/b".to_string(), vec![1, 2]));
    assert_eq!(r.rc, mqtt_rc::Success);
    assert!(matches!(r.dispatch, Some(MqttDispatch::Publish(ref t, ref d)) if t == "a/b" && d == &vec![1, 2]));
    let r = poll_outcome(PollEvent::ConnAck(ConnectReturnCode::NotAuthorized));
    assert!(matches!(r.dispatch, Some(MqttDispatch::Connected(mqtt_rc::NotAuthorized))));
    assert!(poll_outcome(PollEvent::OtherIncoming).dispatch.is_none());
    assert!(poll_outcome(PollEvent::Outgoing).dispatch.is_none());
}

#[test]
fn connack_codes_mapped() {
    assert_eq!(connack_rc(ConnectReturnCode::Success), mqtt_rc::Success);
    assert_eq!(connack_rc(ConnectReturnCode::RefusedProtocolVersion), mqtt_rc::RefusedProtocolVersion);
    assert_eq!(connack_rc(ConnectReturnCode::BadClientId), mqtt_rc::BadClientId);
    assert_eq!(connack_rc(ConnectReturnCode::ServiceUnavailable), mqtt_rc::ServiceUnavailable);
    assert_eq!(connack_rc(ConnectReturnCode::BadUserNamePassword), mqtt_rc::BadUserNamePassword);
    assert_eq!(connack_rc(ConnectReturnCode::NotAuthorized), mqtt_rc::NotAuthorized);
}

#[test]
fn qos_levels() {
    assert_eq!(qos2qos(mqtt_qos::AtMostOnce), QoS::AtMostOnce);
    assert_eq!(qos2qos(mqtt_qos::AtLeastOnce), QoS::AtLeastOnce);
    assert_eq!(qos2qos(mqtt_qos::ExactlyOnce), QoS::ExactlyOnce);
}

#[test]
fn settings_defaults() {
    let s = client_settings("broker", 0, "", "", "");
    assert_eq!(s.host, "broker");
    assert_eq!(s.port, DEFAULT_PORT);
    assert_eq!(s.port, 1883);
    assert_eq!(s.id, "ceammc_mqtt_pd");
    assert!(s.credentials.is_none());
    assert_eq!(s.keep_alive_secs, KEEP_ALIVE_SECS);
    assert_eq!(s.capacity, REQUEST_CAPACITY);
}

#[test]
fn settings_given() {
    let s = client_settings("broker", 8883, "me", "user", "pass");
    assert_eq!(s.port, 8883);
    assert_eq!(s.id, "me");
    assert_eq!(s.credentials, Some(("user".to_string(), "pass".to_string())));
    let s = client_settings("broker", 1, "me", "user", "");
    assert!(s.credentials.is_none());
}

#[test]
fn request_codes() {
    assert_eq!(request_rc(true), mqtt_rc::Success);
    assert_eq!(request_rc(false), mqtt_rc::ClientError);
}

#[test]
fn client_requests_enter_the_queue() {
    let s = client_settings("localhost", 1, "", "", "");
    let (client, _connection) = connect_client(&s);
    assert_eq!(subscribe(&client, "a/b"), mqtt_rc::Success);
    assert_eq!(unsubscribe(&client, "a/b"), mqtt_rc::Success);
    assert_eq!(publish(&client, "a/b", b"hi".to_vec(), mqtt_qos::AtLeastOnce, false), mqtt_rc::Success);
    assert_eq!(publish(&client, "a/#", b"hi".to_vec(), mqtt_qos::AtMostOnce, false), mqtt_rc::ClientError);
}
