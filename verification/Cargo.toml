[package]
name = "pwshfmt-rs"
version = "0.1.0"
edition = "2021"
publish = false

[dependencies]
clap = { version = "4", features = ["derive"] }
figment = { version = "0.10", features = ["toml", "env"] }
globset = "0.4"
miette = "7"
serde = { version = "1", features = ["derive"] }
thiserror = "2"
walkdir = "2"
