[package]
name = "concurrency"
version = "0.1.0"
edition = "2021"
publish = false

[dependencies]
anyhow = "1.0"
dashmap = "5.5"
rand = "0.8"
