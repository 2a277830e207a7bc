[package]
name = "agenter_runner"
version = "0.1.0"
edition = "2021"
publish = false

[dependencies]
serde = { version = "=1.0.229", features = ["derive"] }
serde_json = "=1.0.154"
uuid = { version = "=1.29.0", features = ["v4", "v5"] }
tokio = { version = "=1.54.1", features = ["sync", "rt", "macros", "process", "io-util", "time"] }
anyhow = "=1.0.104"
chrono = { version = "=0.4.45", default-features = false, features = ["std", "now"] }
