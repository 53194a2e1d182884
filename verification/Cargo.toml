[package]
name = "xmrs"
version = "0.1.0"
edition = "2021"
publish = false

[dependencies]
bincode = { version = "2", features = ["serde"] }
serde = { version = "1", features = ["derive"] }
serde-big-array = "0.5"
