[package]
name = "waymouse"
version = "0.1.0"
edition = "2021"
publish = false

[dependencies]
clap = { version = "*", features = ["derive"] }
wayland-client = "*"
wayland-protocols-wlr = { version = "*", features = ["client"] }
