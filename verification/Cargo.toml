[package]
name = "mqtt_shell"
version = "0.1.0"
edition = "2021"
publish = false

[dependencies]
serde_json = "1"
anyhow = "1"
clap = { version = "4", features = ["derive"] }
crossterm = "*"
portable-pty = "*"
rumqttc = { version = "*", default-features = false }
tokio = { version = "1", features = ["full"] }
