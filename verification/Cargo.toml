[package]
name = "atri_bot"
version = "0.1.0"
edition = "2021"
publish = false

[dependencies]
ricq = "*"
regex = "1"
rand = "0.8"
serde = { version = "1", features = ["derive"] }
serde_json = "1"
toml = "0.5"
tokio = { version = "1", features = ["full"] }
prost = "*"
dashmap = "5"
bytes = "1"
async-trait = "0.1"
futures = "0.3"
crossterm = "*"
tracing = "0.1"
