[package]
name = "embridge"
version = "0.1.0"
edition = "2021"
publish = false

[dependencies]
anyhow = "=1.0.104"
futures-util = "=0.3.34"
neon = "=1.1.2"
tokio = { version = "=1.53.2", features = ["rt-multi-thread", "time"] }
wreq = { version = "=0.15.3", features = ["websocket"] }
wreq-util = "=0.1.0"
