[package]
name = "qwen_tts_realtime"
version = "0.1.0"
edition = "2021"
publish = false

[dependencies]
serde_json = "*"
base64 = "*"
log = "*"
flexi_logger = "*"
tokio = { version = "*", features = ["macros", "rt-multi-thread", "net", "time", "sync", "signal"] }
tokio-tungstenite = "*"
futures-util = "*"
