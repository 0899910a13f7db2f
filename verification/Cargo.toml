[package]
name = "replit_audio"
version = "0.1.0"
edition = "2021"
publish = false

[dependencies]
chrono = { version = "0.4", default-features = false, features = ["std"] }
json = "0.12"
lazy_static = "1.4"
