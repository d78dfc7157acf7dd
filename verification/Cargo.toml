[package]
name = "kanata_observer"
version = "0.1.0"
edition = "2021"
publish = false

[dependencies]
clap = { version = "4", features = ["derive"] }
log = "0.4"
serde = { version = "1", features = ["derive"] }
serde_json = "1"
shellexpand = "3"
simplelog = "0.12"
toml = "0.8"
