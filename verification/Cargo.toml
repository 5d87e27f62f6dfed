[package]
name = "ccm"
version = "0.1.0"
edition = "2021"
publish = false

[dependencies]
unicode-width = "0.1"
dirs = "5"
crossterm = "0.27"
toml = "0.8"
serde = { version = "1", features = ["derive"] }
