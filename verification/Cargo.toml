[package]
name = "gpui_wayland"
version = "0.1.0"
edition = "2021"
publish = false

[dependencies]
calloop = "0.12"
calloop-wayland-source = "0.2"
copypasta = "0.10"
log = "0.4"
wayland-backend = { version = "0.3", features = ["client_system", "dlopen"] }
wayland-client = "0.31"
wayland-protocols = { version = "0.31", features = ["client", "staging", "unstable"] }
xkbcommon = { version = "0.7", features = ["wayland"] }
xkeysym = "0.2"
