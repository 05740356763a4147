[package]
name = "nux_session"
version = "0.1.0"
edition = "2021"
publish = false

[dependencies]
tokio = { version = "1", features = ["rt-multi-thread", "time"] }
tracing = "0.1"
tracing-subscriber = "0.3"
