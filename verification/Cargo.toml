[package]
name = "starlight_shards"
version = "0.1.0"
edition = "2021"
publish = false

[dependencies]
chrono = "*"
pelite = "*"
eldenring = "*"
fromsoftware-shared = "*"
