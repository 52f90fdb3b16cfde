use bridge_backend::aerodynamic_model::{push_history, HISTORY_CAPACITY};
use bridge_backend::alarm_mqtt::{alarm_step, should_publish, AlarmStep, AlertLedger};
use bridge_backend::models::AlertType;
use bridge_backend::dtu_receiver::{validate_payload_header, PayloadHeaderError};
use bridge_backend::flutter_analyzer::{analyzer_step, ModelCache};
use bridge_backend::genetic_optimizer::mutate_plate_count;
use bridge_backend::handlers::{lookup_bridge, optimization_reply, ApiResponse, BridgeQuery, OptimizationOutcome};
use bridge_backend::influxdb_storage::recent_wind_query;
use bridge_backend::models::{bridge_id_at, collect_readings, AlertSeverity, DeckShapeType, MessageKind, WorkerStep, BRIDGE_COUNT};
use bridge_backend::mqtt_alerts::{AlertRoute, MQTTAlertService};
use bridge_backend::shape_optimizer::{optimizer_step, PendingOptimizations};
use std::cell::Cell;

#[test]
fn bridge_catalogue_lookup() {
    assert_eq!(BRIDGE_COUNT, 10);
    assert_eq!(bridge_id_at(0), "BS001");
    assert_eq!(bridge_id_at(9), "BS010");
    assert_eq!(lookup_bridge("BS001"), Some(0));
    assert_eq!(lookup_bridge("BS009"), Some(8));
    assert_eq!(lookup_bridge("BS010"), Some(9));
    assert_eq!(lookup_bridge("INVALID_ID"), None);
    assert_eq!(lookup_bridge(""), None);
    assert_eq!(lookup_bridge("bs001"), None);
    for i in 0..BRIDGE_COUNT {
        assert_eq!(lookup_bridge(bridge_id_at(i)), Some(i));
    }
    let q = BridgeQuery { bridge_id: "BS004".to_string() };
    assert_eq!(lookup_bridge(&q.bridge_id), Some(3));
}

#[test]
fn pending_result_delivered_once() {
    let mut pending: PendingOptimizations<&str> = PendingOptimizations::new();
    let a = pending.register("first");
    let b = pending.register("second");
    assert_ne!(a, b);
    assert_eq!(pending.take(a), Some("first"));
    assert_eq!(pending.take(a), None);
    assert_eq!(pending.take(b), Some("second"));
    assert_eq!(pending.take(12345), None);
    assert_eq!((a >> 76) & 0xf, 4);
}

#[test]
fn model_cache_reuses_model() {
    let created = Cell::new(0usize);
    let mut cache: ModelCache<(usize, u32)> = ModelCache::new();
    let make = |i: usize| {
        created.set(created.get() + 1);
        (i, 7u32)
    };
    assert_eq!(cache.get_or_create("BS003", &make), Some((2, 7)));
    assert_eq!(created.get(), 1);
    assert_eq!(cache.get_or_create("BS003", &make), Some((2, 7)));
    assert_eq!(created.get(), 1);
    assert_eq!(cache.get_or_create("INVALID_ID", &make), None);
    assert_eq!(created.get(), 1);
    assert_eq!(cache.get_or_create("BS010", &make), Some((9, 7)));
    assert_eq!(created.get(), 2);
}

#[test]
fn worker_steps() {
    assert_eq!(analyzer_step(MessageKind::DtuPayloadReceived), WorkerStep::Handle);
    assert_eq!(analyzer_step(MessageKind::AlertTriggered), WorkerStep::Ignore);
    assert_eq!(analyzer_step(MessageKind::Shutdown), WorkerStep::Stop);
    assert_eq!(optimizer_step(MessageKind::OptimizationRequest), WorkerStep::Handle);
    assert_eq!(optimizer_step(MessageKind::DtuPayloadReceived), WorkerStep::Ignore);
    assert_eq!(optimizer_step(MessageKind::Shutdown), WorkerStep::Stop);
    assert_eq!(alarm_step(MessageKind::AerodynamicResultReady), AlarmStep::EvaluateResult);
    assert_eq!(alarm_step(MessageKind::AlertTriggered), AlarmStep::DispatchAlert);
    assert_eq!(alarm_step(MessageKind::StorageWriteRequest), AlarmStep::Ignore);
    assert_eq!(alarm_step(MessageKind::Shutdown), AlarmStep::Stop);
}

#[test]
fn only_information_stays_unpublished() {
    assert!(!should_publish(AlertSeverity::Info));
    assert!(should_publish(AlertSeverity::Warning));
    assert!(should_publish(AlertSeverity::Critical));
    assert!(should_publish(AlertSeverity::Emergency));
}

#[test]
fn history_keeps_last_twenty() {
    let mut h: Vec<u32> = Vec::new();
    for k in 0..25u32 {
        push_history(&mut h, k);
        assert!(h.len() <= HISTORY_CAPACITY);
        assert_eq!(*h.last().unwrap(), k);
    }
    assert_eq!(h, (5..25).collect::<Vec<u32>>());
}

#[test]
fn plate_count_mutation_clamps() {
    assert_eq!(mutate_plate_count(2, 1), 3);
    assert_eq!(mutate_plate_count(2, 3), 4);
    assert_eq!(mutate_plate_count(1, -5), 0);
    assert_eq!(mutate_plate_count(0, 0), 0);
    assert_eq!(mutate_plate_count(4, -1), 3);
}

#[test]
fn deck_shape_positions() {
    let shapes = [DeckShapeType::Flat, DeckShapeType::Streamlined, DeckShapeType::Box, DeckShapeType::Slotted];
    for (i, s) in shapes.iter().enumerate() {
        assert_eq!(s.index(), i);
        assert_eq!(DeckShapeType::from_index(i), *s);
    }
}

#[test]
fn payload_header_checks() {
    assert_eq!(validate_payload_header("", 3, 0, 0), Err(PayloadHeaderError::EmptyBridgeId));
    assert_eq!(validate_payload_header("", 0, 0, 0), Err(PayloadHeaderError::EmptyBridgeId));
    assert_eq!(validate_payload_header("BS001", 0, 0, 0), Err(PayloadHeaderError::NoSensorData));
    assert_eq!(validate_payload_header("BS001", 0, 0, 1), Ok(()));
    assert_eq!(validate_payload_header("BS001", 13, 7, 2), Ok(()));
    assert_eq!(PayloadHeaderError::EmptyBridgeId.message(), "bridge_id cannot be empty");
    assert_eq!(PayloadHeaderError::NoSensorData.message(), "payload has no sensor data");
}

#[test]
fn readings_collected_in_order() {
    let list = vec![1, 2, 3];
    let got: Vec<i32> = collect_readings(&list, &Some(9)).into_iter().copied().collect();
    assert_eq!(got, vec![1, 2, 3, 9]);
    let got: Vec<i32> = collect_readings(&list, &None).into_iter().copied().collect();
    assert_eq!(got, vec![1, 2, 3]);
    let empty: Vec<i32> = Vec::new();
    assert!(collect_readings(&empty, &None).is_empty());
}

#[test]
fn wind_query_text() {
    assert_eq!(
        recent_wind_query("BS001", 50),
        "SELECT time, bridge_id, sensor_id, wind_speed, wind_direction, attack_angle, temperature, humidity FROM wind_data WHERE bridge_id = 'BS001' ORDER BY time DESC LIMIT 50"
    );
    assert!(recent_wind_query("BS002", 0).ends_with("LIMIT 0"));
    assert!(recent_wind_query("BS002", 1203).ends_with("= 'BS002' ORDER BY time DESC LIMIT 1203"));
}

#[test]
fn mqtt_routes() {
    let off = MQTTAlertService::disabled();
    assert!(!off.is_enabled());
    assert_eq!(off.alert_topic(), "");
    assert!(matches!(off.alert_route(AlertSeverity::Emergency), AlertRoute::LogOnly));
    let (on, _eventloop) = MQTTAlertService::connect("localhost", 1883, "bridge_monitor");
    assert!(on.is_enabled());
    assert_eq!(on.alert_topic(), "bridge/alerts");
    let expected = [
        (AlertSeverity::Info, "bridge/alerts/info"),
        (AlertSeverity::Warning, "bridge/alerts/warn"),
        (AlertSeverity::Critical, "bridge/alerts/critical"),
        (AlertSeverity::Emergency, "bridge/alerts/critical"),
    ];
    for (severity, topic) in expected {
        match on.alert_route(severity) {
            AlertRoute::Publish(t) => assert_eq!(t, topic),
            AlertRoute::LogOnly => panic!("an enabled service publishes"),
        }
    }
}

#[test]
fn api_response_envelopes() {
    let ok = ApiResponse::ok(5u8);
    assert!(ok.success);
    assert_eq!(ok.data, Some(5));
    assert!(ok.error.is_none());
    assert!(ok.timestamp_secs > 0);
    assert!(ok.timestamp_subsec_nanos < 2_000_000_000);
    let err: ApiResponse<u8> = ApiResponse::err("Bridge not found");
    assert!(!err.success);
    assert!(err.data.is_none());
    assert_eq!(err.error.as_deref(), Some("Bridge not found"));
}

#[test]
fn optimization_replies() {
    let r = optimization_reply(OptimizationOutcome::UnknownBridge);
    assert_eq!((r.status, r.error, r.withdraw_request), (404, Some("Bridge not found"), false));
    let r = optimization_reply(OptimizationOutcome::QueueClosed);
    assert_eq!((r.status, r.error, r.withdraw_request), (500, Some("Optimization service unavailable"), true));
    let r = optimization_reply(OptimizationOutcome::Finished);
    assert_eq!((r.status, r.error, r.withdraw_request), (200, None, false));
    let r = optimization_reply(OptimizationOutcome::ResultChannelClosed);
    assert_eq!((r.status, r.error, r.withdraw_request), (500, Some("Optimization result channel closed"), false));
    let r = optimization_reply(OptimizationOutcome::TimedOut);
    assert_eq!((r.status, r.error, r.withdraw_request), (408, Some("Optimization timed out after 120s"), true));
}

#[test]
fn unknown_bridge_message() {
    assert_eq!(
        bridge_backend::flutter_analyzer::unknown_bridge_error("INVALID_ID"),
        "Bridge not found: INVALID_ID"
    );
}

#[test]
fn aerodynamic_history_query_text() {
    assert_eq!(
        bridge_backend::influxdb_storage::aerodynamic_history_query("BS001", "2024-01-15T10:00:00Z", "2024-01-15T11:00:00Z"),
        "SELECT time, bridge_id, wind_speed, attack_angle, aerodynamic_damping, vibration_amplitude, flutter_critical_speed, flutter_margin, is_safe FROM aerodynamic_result WHERE bridge_id = 'BS001' AND time >= '2024-01-15T10:00:00Z' AND time <= '2024-01-15T11:00:00Z'"
    );
}

#[test]
fn alert_dispatched_once_until_it_changes() {
    let mut ledger = AlertLedger::new();
    let t = AlertType::WindSpeedCritical;
    assert!(ledger.observe("BS001", t, Some(AlertSeverity::Warning)));
    assert!(!ledger.observe("BS001", t, Some(AlertSeverity::Warning)));
    assert!(ledger.observe("BS001", t, Some(AlertSeverity::Critical)));
    assert!(!ledger.observe("BS001", t, Some(AlertSeverity::Critical)));
    // other bridges and types are tracked on their own
    assert!(ledger.observe("BS002", t, Some(AlertSeverity::Critical)));
    assert!(ledger.observe("BS001", AlertType::VibrationExceeded, Some(AlertSeverity::Critical)));
    // once cleared, the alert is dispatched again when raised
    assert!(!ledger.observe("BS001", t, None));
    assert!(ledger.observe("BS001", t, Some(AlertSeverity::Critical)));
    // unknown bridges are not tracked
    assert!(ledger.observe("INVALID_ID", t, Some(AlertSeverity::Warning)));
    assert!(ledger.observe("INVALID_ID", t, Some(AlertSeverity::Warning)));
    assert!(!ledger.observe("INVALID_ID", t, None));
    assert_eq!(AlertType::SensorOffline.index(), 4);
}

#[test]
fn registered_ids_are_version_four() {
    let mut pending: PendingOptimizations<u8> = PendingOptimizations::new();
    for k in 0..20u8 {
        let id = pending.register(k);
        assert_eq!(id & 0xF000_C000_0000_0000_0000, 0x4000_8000_0000_0000_0000);
    }
}
