[package]
name = "auto_commit_rs"
version = "0.1.0"
edition = "2021"
publish = false

[dependencies]
anyhow = "1"
clap = { version = "4", features = ["derive"] }
colored = "*"
dirs = "*"
indicatif = "*"
inquire = "*"
regex-lite = "*"
serde = { version = "1", features = ["derive"] }
serde_json = "1"
toml = "*"
ureq = { version = "2", features = ["json"] }
