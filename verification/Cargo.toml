[package]
name = "json_errors"
version = "0.1.0"
edition = "2021"
publish = false

[dependencies]
log = "0.4"
rocket = { version = "0.5", features = ["json"] }
serde_json = "1"
