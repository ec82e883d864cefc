[package]
name = "cpc-paths"
version = "0.1.2"
edition = "2021"
publish = false

[dependencies]
anyhow = "1"
chrono = "0.4"
directories = "5"
once_cell = "1"
serde = { version = "1", features = ["derive"] }
thiserror = "1"
toml = "0.8"
