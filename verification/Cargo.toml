[package]
name = "simple_messenger"
version = "0.1.0"
edition = "2021"
publish = false

[dependencies]
scrypt = "0.11"
rand_chacha = "0.3"
rand_core = { version = "0.6", features = ["getrandom"] }
oauth2 = { version = "4", default-features = false }
validator = "0.18"
uuid = { version = "1", features = ["v4"] }
