[package]
name = "datatypes"
version = "0.1.0"
edition = "2021"
publish = false

[dependencies]
regex = "=1.13.1"
htmlescape = "=0.3.1"
serde = { version = "=1.0.229", features = ["derive"] }
serde_json = "=1.0.154"
chrono = { version = "=0.4.45", features = ["serde"] }
rocket = { version = "0.5", features = ["secrets"] }
tarpc = "=0.38.0"
