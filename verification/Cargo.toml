[package]
name = "cargo_quality"
version = "0.1.0"
edition = "2021"
publish = false

[dependencies]
anyhow = "*"
clap = { version = "*", features = ["derive"] }
globset = "*"
log = "*"
rayon = "*"
serde = { version = "*", features = ["derive"] }
serde_derive = "*"
serde_cbor = "*"
serde_json = "*"
serde_yaml = "*"
simple_logger = "*"
toml = "*"
walkdir = "*"
