[package]
name = "mmolb_parsing"
version = "0.1.0"
edition = "2021"
publish = false

[dependencies]
serde = { version = "=1.0.229", features = ["derive"] }
serde_json = "=1.0.154"
strum = { version = "=0.27.2", features = ["derive"] }
nom = "=8.0.0"
chrono = { version = "0.4", default-features = false, features = ["std"] }
