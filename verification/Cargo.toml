[package]
name = "sus_core"
version = "0.1.0"
edition = "2021"
publish = false

[dependencies]
laminar = "*"
crossbeam-channel = "*"
bincode = "1"
serde = { version = "1", features = ["derive"] }
