[package]
name = "miniscreenshot"
version = "0.1.0"
edition = "2021"
publish = false

[dependencies]
png = "=0.17.16"
x11rb = { version = "=0.13.2", features = ["shm"] }
libc = "=0.2.191"
wayland-client = "=0.31.15"
wayland-protocols-wlr = { version = "=0.3.12", features = ["client"] }
memmap2 = "=0.9.12"
ashpd = { version = "=0.13.13", features = ["screenshot"] }
percent-encoding = "=2.3.2"
tokio = { version = "=1.54.1", features = ["rt", "rt-multi-thread", "sync", "net", "macros"] }
wgpu = "=30.0.1"
base64 = "=0.22.1"
serde = { version = "=1.0.229", features = ["derive"] }
thiserror = "=2.0.21"
rmcp = { version = "=3.8.0", features = ["server", "macros", "transport-streamable-http-server"] }
axum = "=0.8.9"
skia-safe = "*"
vello = "*"
