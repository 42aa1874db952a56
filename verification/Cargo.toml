[package]
name = "rs_gitdiffcopy"
version = "1.0.1"
edition = "2021"
publish = false

[dependencies]
atty = "0.2"
chrono = "0.4"
clap = { version = "4", features = ["derive"] }
colored = "2"
dialoguer = "0.11"
dirs = "5"
env_logger = "0.11"
filetime = "0.2"
globset = "0.4"
indicatif = "0.17"
log = "0.4"
rayon = "1"
rust_xlsxwriter = "0.79"
serde = { version = "1", features = ["derive"] }
thiserror = "1"
toml = "0.8"
unicode-width = "0.1"
walkdir = "2"
