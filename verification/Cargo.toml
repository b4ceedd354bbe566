[package]
name = "typed_uuid"
version = "0.1.0"
edition = "2021"
publish = false

[dependencies]
uuid = { version = "=1.27.0", features = ["v1", "v3", "v4", "v5", "v6", "v7", "v8", "serde"] }
serde = { version = "=1.0.229", features = ["derive"] }
