[package]
name = "glue"
version = "0.1.0"
edition = "2021"
publish = false

[dependencies]
cosmwasm-std = "1"
serde = "1"
serde_json = "1"
thiserror = "1"
