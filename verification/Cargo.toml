[package]
name = "lazywt"
version = "0.1.0"
edition = "2021"
publish = false

[dependencies]
anyhow = "1"
clap = { version = "4", features = ["derive"] }
clap_complete = "4"
dialoguer = "0.11"
dirs = "*"
dunce = "1"
glob = "0.3"
owo-colors = { version = "4", features = ["supports-colors"] }
semver = "1"
serde = { version = "1", features = ["derive"] }
serde_json = "1"
thiserror = "*"
ureq = "3"
