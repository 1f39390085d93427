[package]
name = "cortex_ar"
version = "0.1.0"
edition = "2021"
publish = false

[dependencies]
aarch32-cpu = "0.1"
critical-section = "=1.2.0"

[dev-dependencies]
critical-section = { version = "=1.2.0", features = ["std"] }
