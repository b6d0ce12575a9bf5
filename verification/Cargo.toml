[package]
name = "sump_monitor"
version = "0.1.0"
edition = "2021"
publish = false

[dependencies]
clap = "=2.34.0"
futures-util = "=0.3.34"
palette = "=0.5.0"
redis = { version = "=0.17.0", default-features = false, features = ["streams", "tokio-comp"] }
tokio = { version = "=0.2.25", features = ["full"] }
tracing = "=0.1.44"
tracing-subscriber = "=0.2.25"
