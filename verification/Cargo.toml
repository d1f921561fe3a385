[package]
name = "airplay_rs"
version = "0.1.0"
edition = "2021"
publish = false

[dependencies]
rairplay = "=1.0.0"
winit = "=0.30.13"
tokio = { version = "=1.54.1", features = ["rt", "net", "macros"] }
axum = "=0.8.9"
mdns-sd = "=0.21.7"
gstreamer = "=0.25.4"
gstreamer-app = "=0.25.2"
gstreamer-video = "=0.25.4"
tracing-subscriber = "=0.3.23"
objc2 = "=0.5.3"
objc2-app-kit = "=0.2.2"
objc2-foundation = "=0.2.2"
kstring = "=2.0.0"
tokio_dual_stack = "=0.2.0"
