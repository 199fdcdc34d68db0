[package]
name = "hub"
version = "0.1.0"
edition = "2021"
publish = false

[dependencies]
rmp-serde = "1"
serde_json = "1"
tokio = { version = "1", features = ["sync", "rt-multi-thread", "macros", "time"] }
lazy_static = "1"
flutter_rust_bridge = "1"
