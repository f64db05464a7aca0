[package]
name = "camera_pipeline"
version = "0.1.0"
edition = "2021"
publish = false

[dependencies]
url = "=2.5.8"
tokio = { version = "=1.54.1", features = ["sync"] }
anyhow = "=1.0.104"
tracing = "=0.1.44"
uuid = "=1.29.0"
log = "=0.4.35"
env_logger = "=0.10.2"
chrono = "=0.4.45"
simple-error = "=0.3.3"
