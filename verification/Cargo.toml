[package]
name = "pc_control"
version = "0.1.0"
edition = "2021"
publish = false

[dependencies]
serde_json = "=1.0.151"
log = "0.4"
simple_logger = "*"
tokio = { version = "=1.53.2", features = ["macros", "rt", "sync", "time"] }
rumqttc = { version = "=0.25.1", features = ["use-rustls"] }
tokio-rustls = "=0.26.6"
rustls-native-certs = "*"
system_shutdown = "*"
tray-item = { version = "=0.10.0", features = ["ksni"] }
