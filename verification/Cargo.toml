[package]
name = "gelf_collector"
version = "0.1.0"
edition = "2021"
publish = false

[dependencies]
flate2 = "=1.1.10"
serde_json = "=1.0.151"
tokio = { version = "=1.53.2", features = ["sync", "net", "rt-multi-thread", "macros"] }
serde = { version = "=1.0.229", features = ["derive"] }
clap = { version = "=4.6.7", features = ["derive"] }
warp = { version = "=0.4.3", features = ["server"] }
tracing = "=0.1.44"
tracing-subscriber = { version = "=0.3.23", features = ["env-filter"] }
futures-util = "=0.3.34"
tokio-stream = { version = "=0.1.19", features = ["sync"] }
