[package]
name = "usb1020"
version = "0.1.0"
edition = "2021"
publish = false

[dependencies]
rusb = "0.9"
thiserror = "1"

[dev-dependencies]
deku = "0.16"
