[package]
name = "presence_daemon"
version = "0.1.0"
edition = "2021"
publish = false

[dependencies]
ash = "0.38"
libc = "0.2"
libloading = "0.8"
serde = { version = "1", features = ["derive"] }
serde_json = "1"
wayland-backend = { version = "0.3", features = ["client_system", "dlopen"] }
wayland-client = "0.31"
wayland-protocols = { version = "0.32", features = ["client", "staging", "unstable"] }
wayland-protocols-wlr = { version = "0.3", features = ["client"] }
