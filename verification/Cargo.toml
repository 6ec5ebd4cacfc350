[package]
name = "binswap_github"
version = "0.1.0"
edition = "2021"
publish = false

[dependencies]
serde_json = "*"
color-eyre = "*"
crossterm = "*"
tempfile = "*"
tokio = { version = "*", features = ["rt-multi-thread", "macros", "fs", "process", "sync"] }
