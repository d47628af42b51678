[package]
name = "teams"
version = "0.1.0"
edition = "2021"
publish = false

[dependencies]
clap = "*"
serde = { version = "*", features = ["derive"] }
toml = "*"
