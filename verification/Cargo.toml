[package]
name = "toggle_touchpad"
version = "0.1.0"
edition = "2021"
publish = false

[dependencies]
libudev = "0.3"
nix = { version = "*", features = ["user"] }
users = "0.11"
