[package]
name = "gj"
version = "0.1.0"
edition = "2021"
publish = false

[dependencies]
anyhow = "*"
chrono = "*"
clap = { version = "*", features = ["derive"] }
dirs = "*"
inquire = "*"
petname = "*"
serde = { version = "*", features = ["derive"] }
serde_json = "*"
sha2 = "*"
shellexpand = "*"
toml = "*"
