[package]
name = "arrow_embed"
version = "0.1.0"
edition = "2021"
publish = false

[dependencies]
anyhow = "1"
ndarray = "0.16"
once_cell = "1"
ort = { version = "=2.0.0-rc.10", default-features = false, features = ["std", "ndarray", "load-dynamic"] }
tokenizers = { version = "0.21", features = ["http"] }
