[package]
name = "mpax"
version = "0.1.0"
edition = "2021"
publish = false

[dependencies]
anyhow = "*"
axum = "*"
clap = { version = "*", features = ["derive"] }
clap_complete = "*"
env_logger = "*"
log = "*"
reqwest = { version = "*", default-features = false }
rodio = "*"
serde = { version = "*", features = ["derive"] }
tokio = { version = "*", features = ["macros", "rt-multi-thread", "net", "sync", "time"] }
