[package]
name = "hope_model"
version = "0.1.0"
edition = "2021"
publish = false

[dependencies]
burn = { version = "=0.14.0", default-features = false, features = ["std", "autodiff", "ndarray"] }
burn-ndarray = "=0.14.0"
regex = "*"
anyhow = "*"
clap = { version = "*", features = ["derive"] }
serde = { version = "*", features = ["derive"] }
serde_json = "*"
walkdir = "*"
epub = "*"
