[package]
name = "preflight"
version = "0.1.0"
edition = "2021"
publish = false

[dependencies]
tracing = "0.1"
chrono = { version = "0.4", default-features = false, features = ["clock", "std"] }
crossterm = "0.28"
ratatui = "0.29"
tokio = { version = "1", features = ["rt-multi-thread", "macros", "sync", "time"] }
reqwest = { version = "0.12", default-features = false, features = ["json"] }
serde = { version = "1", features = ["derive"] }
serde_json = "1"
toml = "0.8"
anyhow = "1"
thiserror = "2"
async-trait = "0.1"
