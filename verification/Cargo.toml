[package]
name = "remotebridge"
version = "0.1.0"
edition = "2021"
publish = false

[dependencies]
ffmpeg-next = "*"
futures-util = "0.3"
image = { version = "0.25", default-features = false, features = ["png"] }
screencapturekit = "*"
serde = { version = "1", features = ["derive"] }
serde_json = "1"
tokio = { version = "1", features = ["macros", "net", "rt-multi-thread", "sync"] }
tokio-tungstenite = "0.24"
webrtc = "0.13"
