[package]
name = "concurrent_queue"
version = "0.1.0"
edition = "2021"
publish = false

[dependencies]
portable-atomic = { version = "1", default-features = false }

[dev-dependencies]
easy-parallel = "3.1.0"
fastrand = "2.0.0"
