[package]
name = "tidvatten"
version = "0.1.0"
edition = "2021"
publish = false

[dependencies]
chrono = { version = "=0.4.45", features = ["serde"] }
rocket = { version = "=0.5.1", features = ["json"] }
reqwest = { version = "=0.12.28", default-features = false, features = ["json", "gzip"] }
