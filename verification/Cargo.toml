[package]
name = "rsolace"
version = "0.1.0"
edition = "2021"
publish = false

[dependencies]
chrono = { version = "0.4", default-features = false, features = ["std"] }
dashmap = "6"
kanal = "0.1"
crossbeam = "0.8"
tracing = "0.1"
