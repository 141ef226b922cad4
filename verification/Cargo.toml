[package]
name = "voicetypr"
version = "0.1.0"
edition = "2021"
publish = false

[dependencies]
keyboard-types = "0.7"
regex = "1"
sha2 = "0.10"
chrono = "0.4"
serde = { version = "1", features = ["derive"] }
serde_json = "1"
uuid = { version = "1", features = ["v4"] }
hostname = "0.4"
local-ip-address = "0.6"
