[package]
name = "rsfm"
version = "0.1.0"
edition = "2021"
publish = false

[dependencies]
walkdir = "2"
serde = { version = "1", features = ["derive"] }
toml = "*"
dirs = "*"
