[package]
name = "fastembed"
version = "0.1.0"
edition = "2021"
publish = false

[dependencies]
ort = { version = "=2.0.0-rc.11", default-features = false, features = ["load-dynamic"] }
tokenizers = { version = "*", default-features = false, features = ["fancy-regex"] }
