[package]
name = "pexliformation"
version = "1.0.0"
edition = "2021"
publish = false

[dependencies]
serde = { version = "1", features = ["derive"] }
sha2 = "0.10"
tempfile = "3"
which = "7"
