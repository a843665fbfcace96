[package]
name = "opencode_draft"
version = "0.1.0"
edition = "2021"
publish = false

[dependencies]
indexmap = "=2.14.2"
log = "0.4"
serde = "=1.0.229"
serde_json = { version = "=1.0.154", features = ["preserve_order"] }
