[package]
name = "xd_engine"
version = "0.1.0"
edition = "2021"
publish = false

[dependencies]
winit = { version = "0.30", default-features = false, features = ["x11", "rwh_06"] }
raw-window-handle = "0.6"
