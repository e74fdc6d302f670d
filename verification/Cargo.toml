[package]
name = "redeye"
version = "0.1.0"
edition = "2021"
publish = false

[dependencies]
tempfile = "3"
wayland-client = "0.31"
wayland-protocols-wlr = { version = "0.3", features = ["client"] }
