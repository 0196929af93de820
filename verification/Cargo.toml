[package]
name = "hn_cli"
version = "0.1.0"
edition = "2021"
publish = false

[dependencies]
clap = { version = "4", features = ["derive"] }
colored = "3"
indicatif = "0.17"
serde_json = "1"
ureq = "3"
