[package]
name = "pan_zoom"
version = "0.1.0"
edition = "2021"
publish = false

[dependencies]
rustc_apfloat = "=0.1.3"
winit = { version = "=0.29.15", default-features = false, features = ["x11", "rwh_06"] }
env_logger = { version = "=0.10.2", default-features = false }
