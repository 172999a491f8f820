[package]
name = "memso"
version = "0.1.0"
edition = "2021"
publish = false

[dependencies]
anyhow = "=1.0.104"
dirs = "=6.0.0"
fastembed = { version = "=5.17.4", default-features = false, features = ["hf-hub"] }
turso = { version = "=0.5.3", features = ["sync"] }
