//! The publish/subscribe adapter's decisions: client settings from host
//! input, quality-of-service and connection-code mapping, and what each
//! answer of a timed poll means for the host.

use vstd::prelude::*;
use vstd::string::*;

verus! {

#[verifier::external_type_specification]
pub struct ExConnectReturnCode(rumqttc::ConnectReturnCode);

#[verifier::external_type_specification]
pub struct ExQoS(rumqttc::QoS);

/// Delivery guarantee of a published message.
#[derive(PartialEq, Eq, Structural, Debug, Clone, Copy)]
#[allow(non_camel_case_types)]
pub enum mqtt_qos {
    /// may lose messages
    AtMostOnce,
    /// delivers, possibly more than once
    AtLeastOnce,
    /// delivers exactly once
    ExactlyOnce,
}

/// Status codes of the publish/subscribe adapter.
#[derive(PartialEq, Eq, Structural, Debug, Clone, Copy)]
#[allow(non_camel_case_types)]
pub enum mqtt_rc {
    Success,
    RefusedProtocolVersion,
    BadClientId,
    ServiceUnavailable,
    BadUserNamePassword,
    NotAuthorized,
    InvalidString,
    InvalidClient,
    ClientError,
    Disconnected,
    NetworkTimeout,
    FlushTimeout,
    ConnectionRefused,
    ConnectionReset,
    ConnectionError,
}

/// The client's quality-of-service level for a host level.
pub fn qos2qos(qos: mqtt_qos) -> (r: rumqttc::QoS)
    ensures
        qos == mqtt_qos::AtMostOnce ==> r == rumqttc::QoS::AtMostOnce,
        qos == mqtt_qos::AtLeastOnce ==> r == rumqttc::QoS::AtLeastOnce,
        qos == mqtt_qos::ExactlyOnce ==> r == rumqttc::QoS::ExactlyOnce,
{
    match qos {
        mqtt_qos::AtLeastOnce => rumqttc::QoS::AtLeastOnce,
        mqtt_qos::AtMostOnce => rumqttc::QoS::AtMostOnce,
        mqtt_qos::ExactlyOnce => rumqttc::QoS::ExactlyOnce,
    }
}

/// The adapter's code for a broker's connection acknowledgement, one for one.
pub open spec fn conn_rc(code: rumqttc::ConnectReturnCode) -> mqtt_rc {
    match code {
        rumqttc::ConnectReturnCode::Success => mqtt_rc::Success,
        rumqttc::ConnectReturnCode::RefusedProtocolVersion => mqtt_rc::RefusedProtocolVersion,
        rumqttc::ConnectReturnCode::BadClientId => mqtt_rc::BadClientId,
        rumqttc::ConnectReturnCode::ServiceUnavailable => mqtt_rc::ServiceUnavailable,
        rumqttc::ConnectReturnCode::BadUserNamePassword => mqtt_rc::BadUserNamePassword,
        rumqttc::ConnectReturnCode::NotAuthorized => mqtt_rc::NotAuthorized,
    }
}

/// Maps a connection acknowledgement's code.
pub fn connack_rc(code: rumqttc::ConnectReturnCode) -> (r: mqtt_rc)
    ensures
        r == conn_rc(code),
{
    match code {
        rumqttc::ConnectReturnCode::Success => mqtt_rc::Success,
        rumqttc::ConnectReturnCode::RefusedProtocolVersion => mqtt_rc::RefusedProtocolVersion,
        rumqttc::ConnectReturnCode::BadClientId => mqtt_rc::BadClientId,
        rumqttc::ConnectReturnCode::ServiceUnavailable => mqtt_rc::ServiceUnavailable,
        rumqttc::ConnectReturnCode::BadUserNamePassword => mqtt_rc::BadUserNamePassword,
        rumqttc::ConnectReturnCode::NotAuthorized => mqtt_rc::NotAuthorized,
    }
}

/// Broker port used when the host gives none.
pub const DEFAULT_PORT: u16 = 1883;

/// Keep-alive interval in seconds.
pub const KEEP_ALIVE_SECS: u8 = 5;

/// Capacity of the client's request queue.
pub const REQUEST_CAPACITY: usize = 10;

/// The client id used when the host gives none.
pub open spec fn default_client_id() -> Seq<char> {
    "ceammc_mqtt_pd"@
}

/// Everything a client is created from.
pub struct MqttSettings {
    pub id: String,
    pub host: String,
    pub port: u16,
    /// user name and password, sent only when both are given
    pub credentials: Option<(String, String)>,
    pub keep_alive_secs: u8,
    pub capacity: usize,
}

/// Client settings from host input: an empty id takes the default id,
/// port 0 the default port, and credentials count only when both the user
/// name and the password are non-empty.
pub fn client_settings(host: &str, port: u16, id: &str, user: &str, password: &str) -> (r:
    MqttSettings)
    ensures
        r.host@ == host@,
        r.port == (if port == 0 {
            DEFAULT_PORT
        } else {
            port
        }),
        r.id@ == (if id@.len() == 0 {
            default_client_id()
        } else {
            id@
        }),
        user@.len() > 0 && password@.len() > 0 ==> (r.credentials matches Some((u, p)) && u@
            == user@ && p@ == password@),
        !(user@.len() > 0 && password@.len() > 0) ==> r.credentials is None,
        r.keep_alive_secs == KEEP_ALIVE_SECS,
        r.capacity == REQUEST_CAPACITY,
{
    let id = if id.unicode_len() == 0 {
        String::from_str("ceammc_mqtt_pd")
    } else {
        String::from_str(id)
    };
    let port = if port == 0 {
        DEFAULT_PORT
    } else {
        port
    };
    let credentials = if user.unicode_len() > 0 && password.unicode_len() > 0 {
        Some((String::from_str(user), String::from_str(password)))
    } else {
        None
    };
    MqttSettings {
        id,
        host: String::from_str(host),
        port,
        credentials,
        keep_alive_secs: KEEP_ALIVE_SECS,
        capacity: REQUEST_CAPACITY,
    }
}

/// The answer of one timed wait for the next connection event, classified.
pub enum PollEvent {
    /// No event within the window.
    Timeout,
    /// The connection's event loop is gone.
    Disconnected,
    NetworkTimeout,
    FlushTimeout,
    ConnectionRefused,
    ConnectionReset,
    /// Any other connection failure.
    ConnectionFailed,
    /// Keep-alive acknowledgement.
    PingResp,
    /// An inbound publish: topic and payload.
    Publish(String, Vec<u8>),
    /// Connection acknowledgement.
    ConnAck(rumqttc::ConnectReturnCode),
    /// Any other inbound packet.
    OtherIncoming,
    /// An outbound packet went out.
    Outgoing,
}

/// A host callback to fire.
pub enum MqttDispatch {
    Ping,
    Publish(String, Vec<u8>),
    Connected(mqtt_rc),
}

/// What one poll ends with.
pub struct PollOutcome {
    pub dispatch: Option<MqttDispatch>,
    pub rc: mqtt_rc,
}

/// The status of a poll after a connection failure, or `Success`.
pub open spec fn poll_rc(ev: PollEvent) -> mqtt_rc {
    match ev {
        PollEvent::Disconnected => mqtt_rc::Disconnected,
        PollEvent::NetworkTimeout => mqtt_rc::NetworkTimeout,
        PollEvent::FlushTimeout => mqtt_rc::FlushTimeout,
        PollEvent::ConnectionRefused => mqtt_rc::ConnectionRefused,
        PollEvent::ConnectionReset => mqtt_rc::ConnectionReset,
        PollEvent::ConnectionFailed => mqtt_rc::ConnectionError,
        _ => mqtt_rc::Success,
    }
}

/// One poll: a quiet window is success, not an error; keep-alive
/// acknowledgements, publishes and connection acknowledgements fire their
/// callback (the last with its code mapped); connection failures end
/// with their own status and fire nothing.
pub fn poll_outcome(ev: PollEvent) -> (r: PollOutcome)
    ensures
        r.rc == poll_rc(ev),
        ev is Timeout ==> r.rc == mqtt_rc::Success && r.dispatch is None,
        ev is PingResp ==> r.dispatch matches Some(MqttDispatch::Ping),
        ev matches PollEvent::Publish(t, d) ==> (r.dispatch matches Some(MqttDispatch::Publish(u, e))
            && u@ == t@ && e@ == d@),
        ev matches PollEvent::ConnAck(c) ==> (r.dispatch matches Some(MqttDispatch::Connected(x))
            && x == conn_rc(c)),
        !(ev is PingResp || ev is Publish || ev is ConnAck) ==> r.dispatch is None,
{
    match ev {
        PollEvent::Timeout => PollOutcome { dispatch: None, rc: mqtt_rc::Success },
        PollEvent::Disconnected => PollOutcome { dispatch: None, rc: mqtt_rc::Disconnected },
        PollEvent::NetworkTimeout => PollOutcome { dispatch: None, rc: mqtt_rc::NetworkTimeout },
        PollEvent::FlushTimeout => PollOutcome { dispatch: None, rc: mqtt_rc::FlushTimeout },
        PollEvent::ConnectionRefused => PollOutcome { dispatch: None, rc: mqtt_rc::ConnectionRefused },
        PollEvent::ConnectionReset => PollOutcome { dispatch: None, rc: mqtt_rc::ConnectionReset },
        PollEvent::ConnectionFailed => PollOutcome { dispatch: None, rc: mqtt_rc::ConnectionError },
        PollEvent::PingResp => PollOutcome { dispatch: Some(MqttDispatch::Ping), rc: mqtt_rc::Success },
        PollEvent::Publish(t, d) => PollOutcome {
            dispatch: Some(MqttDispatch::Publish(t, d)),
            rc: mqtt_rc::Success,
        },
        PollEvent::ConnAck(c) => PollOutcome {
            dispatch: Some(MqttDispatch::Connected(connack_rc(c))),
            rc: mqtt_rc::Success,
        },
        PollEvent::OtherIncoming => PollOutcome { dispatch: None, rc: mqtt_rc::Success },
        PollEvent::Outgoing => PollOutcome { dispatch: None, rc: mqtt_rc::Success },
    }
}

/// The status of a client request (subscribe, unsubscribe, publish): only
/// whether the client took it into its queue, not whether it was delivered.
pub fn request_rc(accepted: bool) -> (r: mqtt_rc)
    ensures
        r == (if accepted {
            mqtt_rc::Success
        } else {
            mqtt_rc::ClientError
        }),
{
    if accepted {
        mqtt_rc::Success
    } else {
        mqtt_rc::ClientError
    }
}

#[verifier::external_type_specification]
#[verifier::external_body]
pub struct ExMqttOptions(rumqttc::MqttOptions);

#[verifier::external_type_specification]
#[verifier::external_body]
pub struct ExClient(rumqttc::Client);

#[verifier::external_type_specification]
#[verifier::external_body]
pub struct ExConnection(rumqttc::Connection);

/// Relies on rumqttc's `MqttOptions::new`: options for client `id` of the
/// broker at `host`:`port`.
#[verifier::external_body]
fn options_new(id: &str, host: &str, port: u16) -> (r: rumqttc::MqttOptions) {
    rumqttc::MqttOptions::new(id, host, port)
}

/// Relies on rumqttc's `MqttOptions::set_keep_alive`, which accepts any
/// whole number of seconds.
#[verifier::external_body]
fn options_keep_alive(o: &mut rumqttc::MqttOptions, secs: u8) {
    o.set_keep_alive(std::time::Duration::from_secs(secs as u64));
}

/// Relies on rumqttc's `MqttOptions::set_credentials`.
#[verifier::external_body]
fn options_credentials(o: &mut rumqttc::MqttOptions, user: &str, password: &str) {
    o.set_credentials(user, password);
}

/// Relies on rumqttc's `Client::new`: a client with a request queue of
/// `cap` entries, and the connection that its event loop runs on.
#[verifier::external_body]
fn client_new(o: rumqttc::MqttOptions, cap: usize) -> (r: (rumqttc::Client, rumqttc::Connection)) {
    rumqttc::Client::new(o, cap)
}

/// Relies on rumqttc's `Client::try_subscribe`: whether the request entered
/// the client's queue.
#[verifier::external_body]
fn client_try_subscribe(c: &rumqttc::Client, topic: &str, qos: rumqttc::QoS) -> (r: bool) {
    c.try_subscribe(topic, qos).is_ok()
}

/// Relies on rumqttc's `Client::try_unsubscribe`: whether the request
/// entered the client's queue.
#[verifier::external_body]
fn client_try_unsubscribe(c: &rumqttc::Client, topic: &str) -> (r: bool) {
    c.try_unsubscribe(topic).is_ok()
}

/// Relies on rumqttc's `Client::try_publish`: whether the message entered
/// the client's queue (a topic with wildcards is refused).
#[verifier::external_body]
fn client_try_publish(
    c: &rumqttc::Client,
    topic: &str,
    qos: rumqttc::QoS,
    retain: bool,
    payload: Vec<u8>,
) -> (r: bool) {
    c.try_publish(topic, qos, retain, payload).is_ok()
}

/// A client, and its connection, made from `s`.
pub fn connect_client(s: &MqttSettings) -> (r: (rumqttc::Client, rumqttc::Connection)) {
    let mut o = options_new(s.id.as_str(), s.host.as_str(), s.port);
    options_keep_alive(&mut o, s.keep_alive_secs);
    match &s.credentials {
        Some((user, password)) => options_credentials(&mut o, user.as_str(), password.as_str()),
        None => {},
    }
    client_new(o, s.capacity)
}

/// Subscribes to `topic`, at most once delivery; only local refusal is reported.
pub fn subscribe(c: &rumqttc::Client, topic: &str) -> (r: mqtt_rc)
    ensures
        r == mqtt_rc::Success || r == mqtt_rc::ClientError,
{
    request_rc(client_try_subscribe(c, topic, rumqttc::QoS::AtMostOnce))
}

/// Unsubscribes from `topic`; only local refusal is reported.
pub fn unsubscribe(c: &rumqttc::Client, topic: &str) -> (r: mqtt_rc)
    ensures
        r == mqtt_rc::Success || r == mqtt_rc::ClientError,
{
    request_rc(client_try_unsubscribe(c, topic))
}

/// Publishes `payload` to `topic`, fire and forget: only local refusal is
/// reported, never delivery.
pub fn publish(c: &rumqttc::Client, topic: &str, payload: Vec<u8>, qos: mqtt_qos, retain: bool) -> (r:
    mqtt_rc)
    ensures
        r == mqtt_rc::Success || r == mqtt_rc::ClientError,
{
    request_rc(client_try_publish(c, topic, qos2qos(qos), retain, payload))
}

} // verus!
