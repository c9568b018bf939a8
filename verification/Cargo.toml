[package]
name = "blocking_io_client"
version = "0.1.0"
edition = "2021"
publish = false

[dependencies]
encoding = "0.2"
serde = { version = "1", features = ["derive"] }
serde_json = "1"
uuid = { version = "1", features = ["v4", "serde"] }
