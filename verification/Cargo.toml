[package]
name = "beam"
version = "0.1.0"
edition = "2021"
publish = false

[dependencies]
anyhow = "=1.0.104"
gstreamer = "=0.23.7"
gstreamer-app = "=0.23.5"
gstreamer-video = "=0.23.6"
keyring = { version = "=3.6.3", default-features = false }
libc = "=0.2.191"
nix = { version = "=0.29.0", features = ["user", "signal", "process"] }
rustls = { version = "=0.23.46", default-features = false, features = ["ring", "std"] }
serde = { version = "=1.0.229", features = ["derive"] }
serde_json = "=1.0.154"
tokio = { version = "=1.54.1", features = ["rt-multi-thread", "macros", "process", "sync", "time", "signal", "fs"] }
tracing = "=0.1.44"
tracing-subscriber = { version = "=0.3.23", features = ["env-filter"] }
uuid = { version = "=1.29.0", features = ["v4", "serde"] }
wayland-client = "=0.31.15"
wayland-protocols-wlr = { version = "=0.3.12", features = ["client"] }
x11rb = { version = "=0.13.2", features = ["shm"] }
zbus = "=4.4.0"

[dev-dependencies]
toml = "=0.8.23"

[lints.rust]
unexpected_cfgs = { level = "warn", check-cfg = ["cfg(gstreamer)"] }
