[package]
name = "baco"
version = "0.1.0"
edition = "2021"
publish = false

[dependencies]
serde = { version = "1", features = ["derive"] }
serde_json = "1"
sha2 = "0.10"
hex = "0.4"
regex = "1"
thiserror = "1"
chrono = { version = "0.4", default-features = false, features = ["clock", "std"] }
