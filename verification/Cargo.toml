[package]
name = "worthless-js-rt"
version = "0.1.0"
edition = "2021"
publish = false

[dependencies]
smallvec = "1"
thiserror = "1"
uuid = { version = "1", features = ["v4", "serde"] }
ciborium = "0.2"
serde = { version = "1", features = ["derive"] }
serde_plain = "1"
serde_json = "1"
anyhow = "1"
