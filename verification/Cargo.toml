[package]
name = "rboy"
version = "0.1.0"
edition = "2021"
publish = false

[dependencies]
blip_buf = "0.1"
clap = "4"
serde = { version = "1", features = ["derive"] }
ciborium = "0.2"
