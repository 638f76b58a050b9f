[package]
name = "wrangler_publish"
version = "0.1.0"
edition = "2021"
publish = false

[dependencies]
failure = { version = "0.1", default-features = false, features = ["std"] }
log = "0.4"
serde_json = "1.0"
