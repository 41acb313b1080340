[package]
name = "yjs_collaboration_server"
version = "0.1.0"
edition = "2021"
publish = false

[dependencies]
yrs = "*"
base64 = "*"
chrono = { version = "*", default-features = false, features = ["clock"] }
tokio = { version = "*", features = ["sync", "rt", "rt-multi-thread", "macros"] }
serde = { version = "*", features = ["derive"] }
serde_yaml = "*"
serde_json = "*"
uuid = { version = "*", features = ["v4"] }
