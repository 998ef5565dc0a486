[package]
name = "kble-tcp"
version = "0.1.0"
edition = "2021"
publish = false

[dependencies]
anyhow = "=1.0.104"
clap = { version = "=4.6.7", features = ["derive"] }
futures = "=0.3.34"
kble-socket = { version = "=0.5.0", features = ["stdio", "tungstenite"] }
tokio = { version = "=1.53.2", features = ["io-util", "macros", "net", "rt-multi-thread"] }
tracing-subscriber = { version = "=0.3.23", features = ["env-filter"] }
