[package]
name = "indexify"
version = "0.1.0"
edition = "2021"
publish = false

[dependencies]
anyerror = "=0.1.13"
anyhow = "=1.0.104"
clap = { version = "=4.6.7", features = ["derive"] }
openraft = { version = "=0.9.25", features = ["serde"] }
prost = "0.12"
regex = "=1.13.1"
scraper = "=0.29.0"
serde = { version = "=1.0.229", features = ["derive"] }
serde_json = "=1.0.154"
thiserror = "=1.0.69"
tokio = { version = "1", features = ["rt-multi-thread", "process"] }
tonic = "=0.11.0"
tracing = "=0.1.44"
tracing-unwrap = "=1.0.1"
