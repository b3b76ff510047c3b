[package]
name = "linear_dashboard"
version = "0.1.0"
edition = "2021"
publish = false

[dependencies]
unicode-segmentation = "1"
serde_json = "1"
tokio = { version = "1", features = ["rt-multi-thread", "sync", "time", "macros"] }
tui = { version = "0.19", default-features = false, features = ["termion"] }
termion = "1.5"
log = "0.4"
simplelog = "0.12"
