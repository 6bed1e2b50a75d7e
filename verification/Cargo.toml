[package]
name = "keyspace"
version = "0.1.0"
edition = "2021"
publish = false

[dependencies]
anyhow = "1"
clap = { version = "4", features = ["derive"] }
dirs = "5"
rand = "0.8"
reqwest = "0.12"
serde = { version = "1", features = ["derive"] }
ssh-key = { version = "0.6", features = ["ed25519", "p256", "rsa"] }
