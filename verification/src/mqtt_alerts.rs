use vstd::prelude::*;
use crate::models::{AlertSeverity, AlertType};

verus! {

impl AlertType {
    /// Machine identifier of the alert type.
    pub open spec fn code(self) -> Seq<char> {
        match self {
            AlertType::VibrationExceeded => "vibration_exceeded"@,
            AlertType::WindSpeedCritical => "wind_speed_critical"@,
            AlertType::CableForceAnomaly => "cable_force_anomaly"@,
            AlertType::FlutterImminent => "flutter_imminent"@,
            AlertType::SensorOffline => "sensor_offline"@,
        }
    }

    pub fn as_str(&self) -> (s: &'static str)
        ensures
            s@ == self.code(),
    {
        match self {
            AlertType::VibrationExceeded => "vibration_exceeded",
            AlertType::WindSpeedCritical => "wind_speed_critical",
            AlertType::CableForceAnomaly => "cable_force_anomaly",
            AlertType::FlutterImminent => "flutter_imminent",
            AlertType::SensorOffline => "sensor_offline",
        }
    }
}

/// Distinct alert types never share a textual form.
pub proof fn lemma_alert_type_codes_distinct(a: AlertType, b: AlertType)
    ensures
        a.code() == b.code() ==> a == b,
{
    reveal_strlit("vibration_exceeded");
    reveal_strlit("wind_speed_critical");
    reveal_strlit("cable_force_anomaly");
    reveal_strlit("flutter_imminent");
    reveal_strlit("sensor_offline");
    if a != b {
        assert(a.code().len() != b.code().len() || a.code()[0] != b.code()[0]);
    }
}

impl AlertSeverity {
    /// Machine identifier of the severity, also the topic segment it is published under.
    pub open spec fn code(self) -> Seq<char> {
        match self {
            AlertSeverity::Info => "info"@,
            AlertSeverity::Warning => "warning"@,
            AlertSeverity::Critical => "critical"@,
            AlertSeverity::Emergency => "emergency"@,
        }
    }

    pub fn as_str(&self) -> (s: &'static str)
        ensures
            s@ == self.code(),
    {
        match self {
            AlertSeverity::Info => "info",
            AlertSeverity::Warning => "warning",
            AlertSeverity::Critical => "critical",
            AlertSeverity::Emergency => "emergency",
        }
    }
}

/// Distinct severities never share a textual form.
pub proof fn lemma_severity_codes_distinct(a: AlertSeverity, b: AlertSeverity)
    ensures
        a.code() == b.code() ==> a == b,
{
    reveal_strlit("info");
    reveal_strlit("warning");
    reveal_strlit("critical");
    reveal_strlit("emergency");
    if a != b {
        assert(a.code().len() != b.code().len() || a.code()[0] != b.code()[0]);
    }
}

#[verifier::external_type_specification]
#[verifier::external_body]
pub struct ExAsyncClient(rumqttc::AsyncClient);

#[verifier::external_type_specification]
#[verifier::external_body]
pub struct ExEventLoop(rumqttc::EventLoop);

/// `AsyncClient::clone` (derived in rumqttc) copies the handle to the same
/// request channel. Nothing is stated of the copy.
pub assume_specification[ <rumqttc::AsyncClient as std::clone::Clone>::clone ](client: &rumqttc::AsyncClient) -> rumqttc::AsyncClient;

/// Settings an MQTT client was opened with.
pub struct MqttSettings {
    pub client_id: Seq<char>,
    pub host: Seq<char>,
    pub port: u16,
    pub keep_alive_secs: u64,
    pub inflight: u16,
    pub request_capacity: usize,
}

/// Calls `rumqttc::AsyncClient::new`, which creates the client handle and the
/// event loop that must be polled to drive it; nothing is connected until
/// the event loop is polled. Its options are built from the arguments with
/// `rumqttc::MqttOptions::new(client_id, host, port)`, `set_keep_alive` (the
/// crate asserts the interval is zero or at least one second, which every
/// whole number of seconds is) and `set_inflight` (the crate asserts the
/// limit is not zero). What is stated is the record of the settings it was
/// handed; the client itself is opaque here.
#[verifier::external_body]
fn open_client(
    client_id: &str,
    host: &str,
    port: u16,
    keep_alive_secs: u64,
    inflight: u16,
    request_capacity: usize,
) -> (r: (rumqttc::AsyncClient, rumqttc::EventLoop, Ghost<MqttSettings>))
    requires
        inflight != 0,
    ensures
        r.2@ == (MqttSettings {
            client_id: client_id@,
            host: host@,
            port,
            keep_alive_secs,
            inflight,
            request_capacity,
        }),
{
    let mut options = rumqttc::MqttOptions::new(client_id, host, port);
    options.set_keep_alive(std::time::Duration::from_secs(keep_alive_secs));
    options.set_inflight(inflight);
    let (client, eventloop) = rumqttc::AsyncClient::new(options, request_capacity);
    (client, eventloop, Ghost(MqttSettings {
        client_id: client_id@,
        host: host@,
        port,
        keep_alive_secs,
        inflight,
        request_capacity,
    }))
}

/// Publishes bridge alerts over MQTT, or only logs them when disabled.
#[derive(Clone)]
pub struct MQTTAlertService {
    client: rumqttc::AsyncClient,
    settings: Ghost<MqttSettings>,
    alert_topic: String,
    enabled: bool,
}

/// What to do with an alert.
pub enum AlertRoute {
    /// The service is disabled: the alert is only logged.
    LogOnly,
    /// Publish the serialised alert on this topic.
    Publish(String),
}

/// Prefix of every alert topic.
pub open spec fn alert_topic_root() -> Seq<char> {
    "bridge/alerts"@
}

/// Alert level a severity is published under: `info`, `warn` or
/// `critical`. Emergencies lie beyond the most urgent level and are
/// published with the critical alerts.
pub open spec fn topic_level(severity: AlertSeverity) -> Seq<char> {
    match severity {
        AlertSeverity::Info => "info"@,
        AlertSeverity::Warning => "warn"@,
        AlertSeverity::Critical => "critical"@,
        AlertSeverity::Emergency => "critical"@,
    }
}

/// Topic an alert of `severity` is published on by a service whose topic
/// prefix is `base`.
pub open spec fn alert_topic_for(base: Seq<char>, severity: AlertSeverity) -> Seq<char> {
    base + "/"@ + topic_level(severity)
}

fn topic_level_str(severity: AlertSeverity) -> (s: &'static str)
    ensures
        s@ == topic_level(severity),
{
    match severity {
        AlertSeverity::Info => "info",
        AlertSeverity::Warning => "warn",
        AlertSeverity::Critical => "critical",
        AlertSeverity::Emergency => "critical",
    }
}

impl MQTTAlertService {
    /// Prefix of every topic this service publishes on.
    pub closed spec fn topic_base(&self) -> Seq<char> {
        self.alert_topic@
    }

    /// The MQTT client handle of the service.
    pub closed spec fn client_handle(&self) -> rumqttc::AsyncClient {
        self.client
    }

    /// Settings the service's client was opened with.
    pub closed spec fn settings(&self) -> MqttSettings {
        self.settings@
    }

    /// Whether alerts are actually published.
    pub closed spec fn publishes(&self) -> bool {
        self.enabled
    }

    /// Builds an enabled service that identifies as `client_id` to the broker
    /// at `host:port`, with a 30 s keep-alive, at most 100 messages in flight
    /// and a request channel of 100. Its topics lie under `bridge/alerts`. The
    /// returned event loop must be polled for the client to make progress.
    pub fn connect(host: &str, port: u16, client_id: &str) -> (res: (MQTTAlertService, rumqttc::EventLoop))
        ensures
            res.0.topic_base() == alert_topic_root(),
            res.0.publishes(),
            res.0.settings() == (MqttSettings {
                client_id: client_id@,
                host: host@,
                port,
                keep_alive_secs: 30,
                inflight: 100,
                request_capacity: 100,
            }),
    {
        let alert_topic = "bridge/alerts".to_owned();
        let (client, eventloop, settings) = open_client(client_id, host, port, 30, 100, 100);
        (MQTTAlertService { client, settings, alert_topic, enabled: true }, eventloop)
    }

    /// A service that never publishes: alerts sent through it are only
    /// logged. Its client, identified as `disabled` towards `localhost:1883`
    /// with rumqttc's default 60 s keep-alive and 100 messages in flight and a
    /// request channel of 1, is never connected.
    pub fn disabled() -> (res: MQTTAlertService)
        ensures
            !res.publishes(),
            res.topic_base() == Seq::<char>::empty(),
            res.settings() == (MqttSettings {
                client_id: "disabled"@,
                host: "localhost"@,
                port: 1883,
                keep_alive_secs: 60,
                inflight: 100,
                request_capacity: 1,
            }),
    {
        let (client, _eventloop, settings) = open_client("disabled", "localhost", 1883, 60, 100, 1);
        MQTTAlertService { client, settings, alert_topic: String::new(), enabled: false }
    }

    /// Decides how an alert of `severity` is delivered: only logged by a
    /// disabled service, otherwise published on the topic of its level.
    pub fn alert_route(&self, severity: AlertSeverity) -> (r: AlertRoute)
        ensures
            !self.publishes() <==> r is LogOnly,
            r matches AlertRoute::Publish(t) ==> t@ == alert_topic_for(self.topic_base(), severity),
    {
        if !self.enabled {
            return AlertRoute::LogOnly;
        }
        let mut topic = String::new();
        topic.append(self.alert_topic.as_str());
        topic.append("/");
        topic.append(topic_level_str(severity));
        AlertRoute::Publish(topic)
    }

    /// The MQTT client handle the service publishes through.
    pub fn client(&self) -> (c: &rumqttc::AsyncClient)
        ensures
            *c == self.client_handle(),
    {
        &self.client
    }

    pub fn alert_topic(&self) -> (t: &str)
        ensures
            t@ == self.topic_base(),
    {
        self.alert_topic.as_str()
    }

    pub fn is_enabled(&self) -> (b: bool)
        ensures
            b == self.publishes(),
    {
        self.enabled
    }
}

/// Subscribers of a level receive exactly the alerts of that level: the
/// three documented levels have distinct topics, and an emergency is
/// published where critical alerts are.
pub proof fn lemma_topic_levels(a: AlertSeverity, b: AlertSeverity)
    ensures
        topic_level(a) == topic_level(b) <==> (a == b || (a != AlertSeverity::Info && a != AlertSeverity::Warning
            && b != AlertSeverity::Info && b != AlertSeverity::Warning)),
{
    reveal_strlit("info");
    reveal_strlit("warn");
    reveal_strlit("critical");
    if topic_level(a) != topic_level(b) {
    } else {
        assert(topic_level(a).len() == topic_level(b).len() && topic_level(a)[0] == topic_level(b)[0]);
    }
}

} // verus!
