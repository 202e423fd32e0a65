[package]
name = "epp_client"
version = "0.1.0"
edition = "2021"
publish = false

[dependencies]
chrono = { version = "0.4", default-features = false, features = ["std"] }
futures = "0.3"
serde = { version = "1", features = ["derive"] }
tokio = { version = "1", features = ["io-util", "net", "rt"] }
