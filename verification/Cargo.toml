[package]
name = "kotori"
version = "0.1.0"
edition = "2021"
publish = false

[dependencies]
anyhow = "1"
clap = "4"
html-escape = "0.2"
rand = "0.8"
reqwest = { version = "0.11", features = ["cookies", "blocking"] }
serde_json = "1"
serde_urlencoded = "0.7"
tokio = { version = "1", features = ["rt-multi-thread", "macros"] }
