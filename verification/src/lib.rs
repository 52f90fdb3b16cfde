//! Verified core of the suspension-bridge wind monitoring backend: the
//! catalogues, routing decisions, registries and string logic that the
//! service builds on.

pub mod aerodynamic_model;
pub mod alarm_mqtt;
pub mod code_compliance;
pub mod dtu_receiver;
pub mod flutter_analyzer;
pub mod genetic_optimizer;
pub mod handlers;
pub mod influxdb_storage;
pub mod material_model;
pub mod models;
pub mod mqtt_alerts;
pub mod shape_optimizer;
pub mod virtual_crossing;
pub mod wind_resistant;
