[package]
name = "ratune"
version = "0.1.0"
edition = "2021"
publish = false

[dependencies]
tokio = { version = "1", default-features = false, features = ["rt"] }
serde = { version = "1", features = ["derive"] }
toml = "*"
crossterm = "*"
anyhow = "1"
