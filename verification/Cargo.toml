[package]
name = "valid"
version = "0.1.0"
edition = "2021"
publish = false

[dependencies]
bigdecimal = { version = "0.4", features = ["serde"] }
chrono = { version = "0.4", default-features = false, features = ["std", "serde"] }
num-traits = "0.2"
regex = "1"
serde = { version = "1", features = ["derive"] }
