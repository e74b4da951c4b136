[package]
name = "gst_mxl_rs"
version = "0.1.0"
edition = "2021"
publish = false

[dependencies]
gstreamer = "0.23"
gstreamer-audio = "0.23"
gstreamer-base = "0.23"
serde = { version = "=1.0.229", features = ["derive"] }
serde_json = "=1.0.154"
tracing = "=0.1.44"
uuid = "=1.29.0"
