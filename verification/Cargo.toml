[package]
name = "warv"
version = "0.1.0"
edition = "2021"
publish = false

[dependencies]
chrono = { version = "0.4", default-features = false, features = ["clock", "std"] }
log = "0.4"
may = "0.3"
regex = "1"
rustls = { version = "0.23", default-features = false, features = ["std"] }
