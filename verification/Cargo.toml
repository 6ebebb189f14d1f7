[package]
name = "xx_session_management"
version = "0.1.0"
edition = "2021"
publish = false

[dependencies]
calloop = "0.14"
directories = "6"
fastrand = "2"
serde = { version = "1", features = ["derive"] }
serde_json = "1"
smithay = { version = "0.7", default-features = false, features = ["wayland_frontend"] }
tracing = "0.1"
wayland-backend = "0.3"
wayland-protocols = { version = "0.32", features = ["server", "staging", "unstable"] }
wayland-server = "0.31"
