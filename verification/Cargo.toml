[package]
name = "cfcli"
version = "0.1.0"
edition = "2021"
publish = false

[dependencies]
anyhow = "=1.0.104"
cargo_metadata = "=0.23.1"
clap = { version = "=4.6.7", features = ["derive"] }
kstring = "=2.0.2"
liquid = "=0.26.11"
notify = "=8.2.0"
serde = { version = "=1.0.229", features = ["derive"] }
serde_yaml = "=0.9.34"
syn = { version = "=2.0.119", features = ["full"] }
toml = "=1.1.7"
