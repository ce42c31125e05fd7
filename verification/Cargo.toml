[package]
name = "camera_pipeline"
version = "0.1.0"
edition = "2021"
publish = false

[dependencies]
nokhwa = { version = "0.10", features = ["input-native"] }
wgpu = "0.20"
