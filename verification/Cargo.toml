[package]
name = "wayland-compositor-thing"
version = "0.1.0"
edition = "2021"
publish = false

[dependencies]
bitflags = "=2.13.2"
smithay = { version = "=0.7.0", default-features = false, features = ["backend_winit", "desktop", "renderer_glow", "renderer_test", "wayland_frontend", "xwayland"] }
tracing = "=0.1.44"
tracing-subscriber = { version = "=0.3.23", features = ["env-filter"] }
wayland-sys = { version = "=0.31.11", features = ["client", "dlopen"] }
wlcs = "=0.1.0"
