[package]
name = "shared_files"
version = "0.1.0"
edition = "2021"
publish = false

[dependencies]
async-tempfile = { version = "*", features = ["uuid"] }
async-trait = "*"
crossbeam = "*"
pin-project = "*"
thiserror = "*"
tokio = { version = "*", features = ["fs", "io-util"] }
uuid = { version = "*", features = ["v1"] }
