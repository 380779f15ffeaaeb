[package]
name = "cjvalidate"
version = "0.1.0"
edition = "2021"
publish = false

[dependencies]
cjval = "=0.2.1"
serde_json = "=1.0.154"
url = "=2.5.8"
clap = "=2.34.0"
reqwest = "=0.11.27"
tokio = { version = "=1.54.1", features = ["rt-multi-thread", "macros"] }
anyhow = "=1.0.104"
ansi_term = "=0.12.1"
