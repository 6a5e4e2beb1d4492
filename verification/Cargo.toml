[package]
name = "usb_guard"
version = "0.1.0"
edition = "2021"
publish = false

[dependencies]
rusb = { version = "*", features = ["vendored"] }
serde = { version = "*", features = ["derive"] }
