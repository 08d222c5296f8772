[package]
name = "aeth"
version = "0.1.0"
edition = "2021"
publish = false

[dependencies]
indexed-bitmap = "*"
rand = "0.9"
futures = "0.3"
tokio = { version = "1", features = ["full"] }
core_affinity = "0.8"
thread-priority = "1"
lives = "*"
pin-project-lite = "0.2"
anyhow = "1"
winit = "0.30"
syn = { version = "2", features = ["full"] }
quote = "1"
proc-macro2 = "1"
proc-macro-crate = "3"
