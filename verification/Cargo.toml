[package]
name = "cortex"
version = "0.1.0"
edition = "2021"
publish = false

[dependencies]
regex = "1"
humansize = "2"
chrono = "0.4"
serde = { version = "1", features = ["derive"] }
toml = "0.8"
dirs = "5"
which = "6"
semver = "1"
anyhow = "1"
