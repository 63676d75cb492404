[package]
name = "webtransport_echo"
version = "0.1.0"
edition = "2021"
publish = false

[dependencies]
anyhow = "*"
tokio = { version = "*", features = ["macros", "rt-multi-thread", "time"] }
tracing = "*"
tracing-subscriber = "*"
wtransport = "*"
