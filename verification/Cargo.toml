[package]
name = "broadcast_context"
version = "0.1.0"
edition = "2021"
publish = false

[dependencies]
actix = "=0.12.0"
anyhow = "=1.0.104"
base64 = "=0.13.1"
futures = "=0.3.34"
interceptor = "=0.2.3"
rtcp = "=0.4.1"
serde_json = "=1.0.154"
tokio = { version = "=1.54.1", features = ["full"] }
webrtc = "=0.1.3"
