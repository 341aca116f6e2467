[package]
name = "mistralrs-core"
version = "0.1.0"
edition = "2021"
publish = false

[dependencies]
anyhow = "=1.0.104"
candle-core = "=0.4.1"
candle-nn = "=0.4.1"
half = "=2.4.1"
hf-hub = "=0.3.2"
rand = "=0.8.8"
rand_isaac = "=0.3.0"
serde = { version = "=1.0.229", features = ["derive"] }
serde_json = "=1.0.154"
thiserror = "=1.0.69"
tokenizers = { version = "=0.15.2", default-features = false, features = ["unstable_wasm"] }
tokio-rayon = "=2.1.0"
tracing = "=0.1.44"
