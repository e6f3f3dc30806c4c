[package]
name = "caisson"
version = "0.1.0"
edition = "2021"
publish = false

[dependencies]
bollard = "0.19"
bytes = "1"
clap = { version = "4", features = ["derive"] }
futures-util = "0.3"
semver = "1"
serde = { version = "1", features = ["derive"] }
serde_json = "1"
tar = "0.4"
tempfile = "3"
thiserror = "2"
time = { version = "0.3", features = ["formatting", "parsing", "serde", "serde-well-known"] }
tokio = { version = "1", features = ["rt", "rt-multi-thread"] }
toml = "0.8"
uuid = { version = "1", features = ["v4", "serde"] }
