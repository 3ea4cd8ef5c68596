[package]
name = "shadowguessr"
version = "0.1.0"
edition = "2021"
publish = false

[dependencies]
hex = "0.4"
serde = { version = "1", features = ["derive"] }
serde_json = "1"
thiserror = "*"
log = "0.4"
crossbeam = "0.8"
reqwest = { version = "*", features = ["blocking", "json"] }
semver = "1"
strum = { version = "*", features = ["derive"] }
