[package]
name = "sn_client"
version = "0.1.0"
edition = "2021"
publish = false

[dependencies]
reqwest = { version = "0.12", default-features = false, features = ["json"] }
serde = "1"
tokio = { version = "1", features = ["time"] }
