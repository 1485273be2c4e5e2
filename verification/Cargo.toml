[package]
name = "crately"
version = "0.1.0"
edition = "2021"
publish = false

[dependencies]
semver = "=1.0.28"
cargo-util-schemas = "=0.12.0"
crossterm = { version = "=0.29.0", features = ["event-stream"] }
xdg = "=3.0.0"
serde = { version = "1", features = ["derive"] }
serde_json = "1"
toml = "*"
anyhow = "1"
tokio = { version = "1", features = ["full"] }
acton-reactive = "*"
axum = "*"
reqwest = { version = "*", default-features = false, features = ["json", "rustls-tls"] }
tracing = "0.1"
dashmap = "*"
futures-util = "*"
flate2 = "1"
tar = "*"
walkdir = "2"
is-terminal = "*"
text-splitter = { version = "*", features = ["tiktoken-rs", "markdown"] }
tiktoken-rs = "*"
