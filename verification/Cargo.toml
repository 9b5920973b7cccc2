[package]
name = "arguflow_core"
version = "0.1.0"
edition = "2021"
publish = false

[dependencies]
base64 = "=0.22.1"
uuid = { version = "=1.27.0", features = ["v4"] }
chrono = "=0.4.45"
serde = { version = "=1.0.229", features = ["derive"] }
serde_json = "=1.0.151"
actix = "=0.13.5"
actix-web = "=4.15.0"
actix-web-actors = "=4.3.1"
tokio = { version = "=1.53.2", features = ["rt-multi-thread", "macros", "sync"] }
tokio-stream = "=0.1.19"
openai_dive = { version = "=1.4.3", features = ["stream"] }
