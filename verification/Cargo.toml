[package]
name = "overlay-captions"
version = "0.1.0"
edition = "2021"
publish = false

[dependencies]
directories = "=5.0.1"
log = "0.4"
serde = { version = "1", features = ["derive"] }
serde_json = "1"
