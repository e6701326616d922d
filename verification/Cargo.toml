[package]
name = "memorykata"
version = "0.1.0"
edition = "2021"
publish = false

[dependencies]
base64 = "0.21"
dirs = "5"
eframe = { version = "0.27", default-features = false, features = ["glow"] }
egui = { version = "0.27", default-features = false }
rand = "0.8"
serde = { version = "1", features = ["derive"] }
serde_json = "1"
