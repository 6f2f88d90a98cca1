[package]
name = "daml"
version = "0.3.0"
edition = "2021"
publish = false

[dependencies]
chrono = { version = "0.4", default-features = false, features = ["clock", "std"] }
uuid = { version = "1", features = ["v4"] }
serde = { version = "1", features = ["derive"] }
jsonwebtoken = "9"
thiserror = "1"
