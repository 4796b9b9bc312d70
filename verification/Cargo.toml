[package]
name = "saferoute"
version = "1.0.0"
edition = "2021"
publish = false

[dependencies]
ring = "0.17"
dashmap = "6"
actix-web = { version = "4", default-features = false, features = ["macros"] }
tokio = { version = "1", features = ["rt-multi-thread", "macros", "time"] }
serde = { version = "1", features = ["derive"] }
serde_json = "1"
log = "0.4"
env_logger = "0.11"
clap = { version = "4", features = ["derive"] }
colored = "2"
reqwest = { version = "0.12", default-features = false }
thiserror = "1"
tracing = "0.1"
tracing-subscriber = { version = "0.3", features = ["env-filter"] }
