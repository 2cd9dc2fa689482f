[package]
name = "tproxy"
version = "0.1.0"
edition = "2021"
publish = false

[dependencies]
anyhow = "*"
clap = { version = "*", features = ["derive"] }
tokio = { version = "*", features = ["rt-multi-thread", "net", "io-util", "signal", "sync", "time", "macros"] }
tracing = "*"
tracing-subscriber = "*"
