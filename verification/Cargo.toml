[package]
name = "notecard"
version = "0.1.0"
edition = "2021"
publish = false

[dependencies]
serde = { version = "1", features = ["derive"] }
serde-json-core = "*"
heapless = { version = "0.8", features = ["serde"] }
embedded-hal = "0.2"
embedded-hal-async = "1"
