[package]
name = "rtc2rtmp"
version = "0.1.0"
edition = "2021"
publish = false

[dependencies]
anyhow = "=1.0.104"
bytes = "=1.12.1"
clap = { version = "=3.2.25", features = ["derive"] }
env_logger = "=0.11.11"
log = "=0.4.34"
openh264 = "=0.2.18"
reqwest = { version = "=0.11.27", default-features = false, features = ["json", "rustls-tls"] }
rml_amf0 = "=0.3.0"
rml_rtmp = "=0.8.0"
serde = { version = "=1.0.229", features = ["derive"] }
tokio = { version = "=1.54.1", features = ["full"] }
webrtc = "=0.10.1"
