[package]
name = "cargo-service-message"
version = "0.1.0"
edition = "2021"
publish = false

[dependencies]
serde_json = "1"
serde = { version = "1", features = ["derive"] }
serde_derive = "1"
ctrlc = "3"
