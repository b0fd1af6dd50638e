[package]
name = "pg_shmem"
version = "0.1.0"
edition = "2021"
publish = false

[dependencies]
uuid = { version = "1", features = ["v4"] }
heapless = "0.8"
atomic-traits = "0.3"
