[package]
name = "mira_sharer"
version = "0.1.0"
edition = "2021"
publish = false

[dependencies]
rand = "0.8"
serde = { version = "1", features = ["derive"] }
serde_json = "1"
toml = "0.7"
clap = { version = "4", features = ["derive"] }
enigo = "0.1"
anyhow = "1"
