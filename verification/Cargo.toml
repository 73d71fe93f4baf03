[package]
name = "unraid_mqtt_stats"
version = "0.1.0"
edition = "2021"
publish = false

[dependencies]
anyhow = "1"
bollard = "*"
clap = { version = "4", features = ["derive", "env"] }
futures-util = "0.3"
rumqttc = "*"
serde = { version = "1", features = ["derive"] }
serde_json = "1"
sysinfo = "*"
tokio = { version = "1", features = ["macros", "rt-multi-thread", "sync", "time"] }
toml = "*"
tracing = "0.1"
tracing-subscriber = { version = "0.3", features = ["env-filter"] }
