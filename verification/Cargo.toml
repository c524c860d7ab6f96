[package]
name = "groppy"
version = "0.1.0"
edition = "2021"
publish = false

[dependencies]
anyhow = "1"
clap = { version = "4", features = ["derive"] }
crossbeam = "0.8"
git2 = { version = "*", default-features = false }
indicatif = "*"
