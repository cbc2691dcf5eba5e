[package]
name = "tapioca"
version = "0.1.0"
edition = "2021"
publish = false

[dependencies]
base64 = "=0.13.1"
Inflector = "=0.10.1"
regex = "=1.13.1"
serde_json = "=1.0.154"
yaml-rust = "=0.4.5"
reqwest = { version = "0.12", default-features = false, features = ["blocking"] }
