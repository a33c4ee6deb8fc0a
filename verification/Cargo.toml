[package]
name = "moxidle"
version = "0.1.0"
edition = "2021"
publish = false

[dependencies]
anyhow = "=1.0.104"
calloop = { version = "=0.14.5", features = ["executor"] }
calloop-wayland-source = "=0.4.1"
clap = { version = "=4.6.7", features = ["derive"] }
env_logger = "=0.11.11"
futures-lite = "=2.6.1"
libpulse-binding = "=2.30.1"
log = "=0.4.34"
mlua = { version = "=0.12.2", features = ["lua54", "serde", "vendored"] }
rusb = "=0.9.4"
serde = { version = "=1.0.229", features = ["derive"] }
serde_repr = "=0.1.21"
tokio = { version = "=1.54.1", features = ["rt-multi-thread", "macros", "sync"] }
wayland-client = "=0.31.15"
wayland-protocols = { version = "=0.32.13", features = ["client", "staging"] }
zbus = { version = "=5.19.0", default-features = false, features = ["tokio"] }
