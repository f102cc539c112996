[package]
name = "config-get"
version = "0.1.1"
edition = "2021"
publish = false

[dependencies]
indexmap = { version = "=2.14.2", features = ["serde"] }
serde = { version = "=1.0.229", features = ["derive"] }
serde_json = "=1.0.154"
serde_yaml = "=0.9.34"
toml = "=0.8.23"
rust-ini = "=0.21.3"
dotenvy = "=0.15.7"
dirs = "=5.0.1"
thiserror = "=1.0.69"
clap = { version = "=4.6.7", features = ["derive"] }
colored = "=2.2.0"
regex = "=1.13.1"
anyhow = "=1.0.104"
reqwest = { version = "=0.12.28", default-features = false, features = ["json"] }
