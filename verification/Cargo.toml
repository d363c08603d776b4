[package]
name = "mqtt_repeater"
version = "0.1.0"
edition = "2021"
publish = false

[dependencies]
clap = "*"
rumqttc = "*"
rustls = "*"
rustls-native-certs = "*"
serde = { version = "*", features = ["derive"] }
serde_json = "*"
tokio = { version = "*", features = ["full"] }
