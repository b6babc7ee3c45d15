[package]
name = "polonium"
version = "0.1.0"
edition = "2021"
publish = false

[dependencies]
anyhow = "=1.0.104"
infer = "=0.22.0"
reqwest = { version = "=0.12.28", features = ["multipart"] }
serde = "=1.0.229"
serde_json = "=1.0.154"
structopt = "=0.3.26"
thiserror = "=1.0.69"
tokio = { version = "=1.54.1", features = ["fs", "macros", "rt-multi-thread"] }
url = "=2.5.8"

[dev-dependencies]
futures = "0.3"
