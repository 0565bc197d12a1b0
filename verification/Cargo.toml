[package]
name = "dlocal_connector"
version = "0.1.0"
edition = "2021"
publish = false

[dependencies]
url = { version = "2.5", features = ["serde"] }
serde = { version = "1", features = ["derive"] }
error-stack = "0.4"
