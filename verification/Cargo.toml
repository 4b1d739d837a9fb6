[package]
name = "event_bridge"
version = "0.1.0"
edition = "2021"
publish = false

[dependencies]
mlua = { version = "=0.9.9", features = ["luau", "async"] }
mlua-luau-scheduler = "=0.0.2"
once_cell = "=1.21.4"
tokio = { version = "=1.54.1", features = ["sync", "time", "rt", "macros"] }
winit = { version = "=0.29.15", default-features = false, features = ["x11", "rwh_06"] }
wry = { version = "0.37", default-features = false }
