[package]
name = "audio-plugin-dnd"
version = "0.1.25"
edition = "2021"
publish = false

[dependencies]
raw-window-handle = "=0.5.2"
serde_json = "=1.0.154"
smithay-client-toolkit = { version = "=0.19.2", default-features = false, features = ["calloop"] }
wayland-client = { version = "=0.31.15", features = ["system"] }
wayland-sys = { version = "=0.31.11", features = ["client", "dlopen", "libwayland_client_1_23"] }
x11rb = { version = "=0.13.2", features = ["randr"] }
zbus = "=5.19.0"
