[package]
name = "oss_porter_core"
version = "0.1.0"
edition = "2021"
publish = false

[dependencies]
cargo_toml = "*"
clap = { version = "4", features = ["derive"] }
dialoguer = "0.11"
directories = "5"
env_logger = "0.11"
fs_extra = "1"
log = "0.4"
regex = "1"
serde = { version = "1", features = ["derive"] }
tempfile = "3"
thiserror = "1"
toml = "0.8"
walkdir = "2"
