[package]
name = "wled_backup"
version = "0.1.0"
edition = "2021"
publish = false

[dependencies]
serde_json = "*"
mdns-sd = "*"
reqwest = { version = "*", default-features = false, features = ["blocking"] }
