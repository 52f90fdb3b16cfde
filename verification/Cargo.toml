[package]
name = "bridge_backend"
version = "0.1.0"
edition = "2021"
publish = false

[dependencies]
actix-cors = "0.7"
actix-files = "0.6"
actix-web = "4"
chrono = { version = "0.4", features = ["serde"] }
dotenv = "0.15"
influxdb = { version = "0.7", features = ["derive"] }
lazy_static = "1"
prometheus = "0.13"
rand = "0.8"
rand_distr = "0.4"
rumqttc = { version = "0.24", default-features = false }
serde = { version = "1", features = ["derive"] }
serde_json = "1"
tokio = { version = "1", features = ["full"] }
tracing = "0.1"
tracing-subscriber = { version = "0.3", features = ["env-filter"] }
uuid = { version = "1", features = ["v4", "serde"] }
validator = { version = "0.16", features = ["derive"] }
