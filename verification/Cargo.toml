[package]
name = "dual_cursor"
version = "0.1.0"
edition = "2021"
publish = false

[dependencies]
evdev = "0.13"
png = "0.17"
tempfile = "3"
wayland-client = "0.31"
wayland-protocols = { version = "0.32", features = ["client", "unstable"] }
wayland-protocols-wlr = { version = "0.3", features = ["client"] }
