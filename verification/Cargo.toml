[package]
name = "rustcv_backend_msmf"
version = "0.1.0"
edition = "2021"
publish = false

[dependencies]
windows = { version = "=0.48.0", features = ["Win32_Foundation", "Win32_Media_DirectShow", "Win32_Media_MediaFoundation", "Win32_System_Com", "implement"] }
serde_json = "=1.0.154"
tracing = "=0.1.44"
tokio = { version = "=1.54.1", features = ["sync"] }
