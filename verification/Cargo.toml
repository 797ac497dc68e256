[package]
name = "update_dns"
version = "0.1.0"
edition = "2021"
publish = false

[dependencies]
anyhow = "1"
clap = { version = "4", features = ["derive"] }
dirs = "*"
hickory-client = { version = "0.25", features = ["dnssec-ring", "serde"] }
hickory-proto = { version = "0.25", features = ["dnssec-ring", "serde", "tokio"] }
serde = { version = "1", features = ["derive"] }
serde_with = { version = "3", features = ["base64"] }
serde_yaml = "0.9"
tokio = { version = "1", features = ["macros", "rt-multi-thread", "net", "time"] }
tracing = "0.1"
tracing-subscriber = "0.3"
