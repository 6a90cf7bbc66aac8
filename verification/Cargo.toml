[package]
name = "cbuild"
version = "0.1.0"
edition = "2021"
publish = false

[dependencies]
gumdrop = "0.8"
log = "0.4"
serde = { version = "1", features = ["derive"] }
serde_json = "1"
serde-semver = "*"
walkdir = "2"
