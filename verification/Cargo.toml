[package]
name = "voicesub"
version = "0.6.0"
edition = "2021"
publish = false

[dependencies]
sha2 = "0.10"
serde = { version = "1", features = ["derive"] }
serde_json = "1"
toml = "*"
thiserror = "*"
tracing = "0.1"
parking_lot = "0.12"
zip = { version = "*", default-features = false, features = ["deflate"] }
reqwest = { version = "*", default-features = false, features = ["stream"] }
tokio = { version = "1", features = ["rt", "macros"] }
futures-util = "0.3"
webrtc-vad = "*"
cpal = "*"
rodio = { version = "*", default-features = false }
winreg = "*"
windows = "*"
windows-link = "*"
wasapi = "*"
webview2-com = "*"
parakeet-rs = "*"
