[package]
name = "waycore"
version = "0.1.0"
edition = "2021"
publish = false

[dependencies]
tempfile = "*"
wayland-client = "*"
wayland-protocols = { version = "*", features = ["client"] }
wayland-protocols-wlr = { version = "*", features = ["client"] }
