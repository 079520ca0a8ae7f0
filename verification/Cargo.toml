[package]
name = "meshbridge"
version = "0.1.0"
edition = "2021"
publish = false

[dependencies]
anyhow = "=1.0.104"
clap = { version = "=4.6.7", features = ["derive"] }
env_logger = "=0.11.11"
futures-util = "=0.3.34"
irc = { version = "=1.1.0", default-features = false, features = ["tls-rust"] }
log = "=0.4.34"
meshtastic = "=0.1.9"
prost = "=0.14.4"
rumqttc = "=0.25.1"
serde = { version = "=1.0.229", features = ["derive"] }
serde_json = "=1.0.151"
serialport = { version = "=4.10.1", default-features = false }
tokio = { version = "=1.53.2", features = ["full"] }
