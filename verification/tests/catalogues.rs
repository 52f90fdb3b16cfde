use bridge_backend::code_compliance::DesignCode;
use bridge_backend::material_model::CableMaterial;
use bridge_backend::models::{AlertSeverity, AlertType};
use bridge_backend::virtual_crossing::{ComfortLevel, DangerLevel, ViewStabilizationMode};
use bridge_backend::wind_resistant::WindResistantMeasure;

#[test]
fn test_material_display_name() {
    assert_eq!(CableMaterial::Bamboo.display_name(), "竹索");
    assert_eq!(CableMaterial::Rattan.display_name(), "藤索");
    assert_eq!(CableMaterial::IronChain.display_name(), "铁索");
}

#[test]
fn test_material_all_contains_three() {
    let all = CableMaterial::all();
    assert_eq!(all.len(), 3);
    assert!(all.contains(&CableMaterial::Bamboo));
    assert!(all.contains(&CableMaterial::Rattan));
    assert!(all.contains(&CableMaterial::IronChain));
}

#[test]
fn test_comfort_level_display_names() {
    assert_eq!(ComfortLevel::Comfortable.display_name(), "舒适");
    assert_eq!(ComfortLevel::SlightlyUncomfortable.display_name(), "轻微不适");
    assert_eq!(ComfortLevel::Uncomfortable.display_name(), "不适");
    assert_eq!(ComfortLevel::VeryUncomfortable.display_name(), "非常不适");
    assert_eq!(ComfortLevel::Intolerable.display_name(), "无法忍受");
    assert_eq!(ComfortLevel::Comfortable.as_str(), "comfortable");
}

#[test]
fn test_danger_level_display_names() {
    assert_eq!(DangerLevel::Safe.display_name(), "安全");
    assert_eq!(DangerLevel::Caution.display_name(), "注意");
    assert_eq!(DangerLevel::Dangerous.display_name(), "危险");
    assert_eq!(DangerLevel::Critical.display_name(), "极危");
    assert_eq!(DangerLevel::Safe.as_str(), "safe");
}

#[test]
fn test_wind_resistant_measure_all_variants() {
    let all = WindResistantMeasure::all();
    assert_eq!(all.len(), 3);
    assert!(all.contains(&WindResistantMeasure::WindCable));
    assert!(all.contains(&WindResistantMeasure::Ballast));
    assert!(all.contains(&WindResistantMeasure::WindCableAndBallast));
}

#[test]
fn test_wind_resistant_measure_display_names() {
    assert_eq!(WindResistantMeasure::WindCable.display_name(), "风缆");
    assert_eq!(WindResistantMeasure::Ballast.display_name(), "压重");
    assert_eq!(WindResistantMeasure::WindCableAndBallast.display_name(), "风缆+压重");
    assert_eq!(WindResistantMeasure::WindCable.as_str(), "wind_cable");
}

#[test]
fn material_codes_and_order() {
    let all = CableMaterial::all();
    assert_eq!(all, vec![CableMaterial::Bamboo, CableMaterial::Rattan, CableMaterial::IronChain]);
    let codes: Vec<&str> = all.iter().map(|m| m.as_str()).collect();
    assert_eq!(codes, vec!["bamboo", "rattan", "iron_chain"]);
}

#[test]
fn design_code_strings() {
    let all = DesignCode::all();
    assert_eq!(all.len(), 4);
    let codes: Vec<&str> = all.iter().map(|c| c.as_str()).collect();
    assert_eq!(codes, vec!["CJJ 69-2015", "JTG/T D60-2015", "EN 1991-2", "BS 5400"]);
    assert_eq!(DesignCode::CJJ692015.display_name(), "CJJ 69-2015 城市人行桥");
    assert_eq!(DesignCode::JTGTD602015.display_name(), "JTG/T D60-2015 公路桥抗风");
    assert_eq!(DesignCode::EurocodeEN19912.display_name(), "EN 1991-2 欧洲人行桥");
    assert_eq!(DesignCode::BS5400.display_name(), "BS 5400 英国桥梁");
}

#[test]
fn measure_codes_distinct() {
    let all = WindResistantMeasure::all();
    let codes: Vec<&str> = all.iter().map(|m| m.as_str()).collect();
    assert_eq!(codes, vec!["wind_cable", "ballast", "wind_cable_and_ballast"]);
    for i in 0..all.len() {
        for j in 0..all.len() {
            assert_eq!(i == j, all[i].as_str() == all[j].as_str());
            assert_eq!(i == j, all[i].display_name() == all[j].display_name());
        }
    }
}

#[test]
fn crossing_level_codes() {
    assert_eq!(ViewStabilizationMode::Off.as_str(), "none");
    assert_eq!(ViewStabilizationMode::Reduced.as_str(), "reduced");
    assert_eq!(ViewStabilizationMode::Strong.as_str(), "strong");
    assert_eq!(ComfortLevel::SlightlyUncomfortable.as_str(), "slightly_uncomfortable");
    assert_eq!(ComfortLevel::Uncomfortable.as_str(), "uncomfortable");
    assert_eq!(ComfortLevel::VeryUncomfortable.as_str(), "very_uncomfortable");
    assert_eq!(ComfortLevel::Intolerable.as_str(), "intolerable");
    assert_eq!(DangerLevel::Caution.as_str(), "caution");
    assert_eq!(DangerLevel::Dangerous.as_str(), "dangerous");
    assert_eq!(DangerLevel::Critical.as_str(), "critical");
}

#[test]
fn alert_codes() {
    assert_eq!(AlertType::VibrationExceeded.as_str(), "vibration_exceeded");
    assert_eq!(AlertType::WindSpeedCritical.as_str(), "wind_speed_critical");
    assert_eq!(AlertType::CableForceAnomaly.as_str(), "cable_force_anomaly");
    assert_eq!(AlertType::FlutterImminent.as_str(), "flutter_imminent");
    assert_eq!(AlertType::SensorOffline.as_str(), "sensor_offline");
    assert_eq!(AlertSeverity::Info.as_str(), "info");
    assert_eq!(AlertSeverity::Warning.as_str(), "warning");
    assert_eq!(AlertSeverity::Critical.as_str(), "critical");
    assert_eq!(AlertSeverity::Emergency.as_str(), "emergency");
    assert!(AlertSeverity::Info < AlertSeverity::Warning);
    assert!(AlertSeverity::Critical < AlertSeverity::Emergency);
}
