[package]
name = "ghqb"
version = "0.1.0"
edition = "2021"
publish = false

[dependencies]
url = "*"
toml = "*"
clap = { version = "*", features = ["derive"] }
git2 = "*"
dirs = "*"
