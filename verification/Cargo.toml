[package]
name = "swift_keystone"
version = "0.1.0"
edition = "2021"
publish = false

[dependencies]
url = "2"
serde_json = "1"
chrono = "0.4"
hyper = "0.10"
hyper-native-tls = "0.3"
