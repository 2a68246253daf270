[package]
name = "bamboo_swap"
version = "0.1.0"
edition = "2021"
publish = false

[dependencies]
anyhow = "1"
bitcoin = "0.32"
serde_json = "1"
