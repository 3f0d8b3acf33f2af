[package]
name = "connect_util"
version = "0.1.0"
edition = "2021"
publish = false

[dependencies]
hcl-rs = "0.16"
serde_json = "1"
serde = { version = "1", features = ["derive"] }
thiserror = "1"
anyhow = "1"
clap = { version = "4", features = ["derive"] }
dialoguer = { version = "0.11", features = ["fuzzy-select"] }
tokio = { version = "1", features = ["rt-multi-thread", "macros"] }
tracing = "0.1"
tracing-subscriber = "0.3"
