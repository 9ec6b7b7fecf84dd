[package]
name = "thread_pool"
version = "0.1.0"
edition = "2021"
publish = false

[dependencies]
num_cpus = "1"
tokio = { version = "1", features = ["full"] }
