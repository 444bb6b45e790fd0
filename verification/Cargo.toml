[package]
name = "goxlr_usb"
version = "0.1.0"
edition = "2021"
publish = false

[dependencies]
anyhow = "1"
byteorder = "1.4"
clap = { version = "3", features = ["derive"] }
enumset = "1.0"
log = "0.4"
rusb = "0.9"
