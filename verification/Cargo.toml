[package]
name = "feed_viewer"
version = "0.1.0"
edition = "2021"
publish = false

[dependencies]
serde_json = "=1.0.154"
jsonpath_lib = "=0.3.0"
serde = { version = "=1.0.229", features = ["derive"] }
ewebsock = "=0.2.0"
egui = { version = "=0.20.1", default-features = false }
eframe = { version = "=0.20.1", default-features = false, features = ["glow", "persistence"] }
