[package]
name = "bundle_remap"
version = "0.1.0"
edition = "2021"
publish = false

[dependencies]
clap = { version = "*", features = ["derive"] }
serde = "*"
serde_derive = "*"
toml = "*"
walkdir = "*"
