[package]
name = "crunchy_log"
version = "0.1.0"
edition = "2021"
publish = false

[dependencies]
chrono = { version = "0.4", default-features = false, features = ["std", "clock"] }
indicatif = { version = "0.17" }
log = { version = "0.4", features = ["std"] }
