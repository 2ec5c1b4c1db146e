[package]
name = "singularity_llm"
version = "0.1.0"
edition = "2021"
publish = false

[dependencies]
dirs = "*"
anyhow = "*"
reqwest = { version = "*", default-features = false, features = ["stream"] }
tokio = { version = "*", features = ["fs", "io-util", "macros", "process", "rt-multi-thread", "time"] }
futures-util = "*"
flate2 = "*"
tar = "*"
zip = { version = "*", default-features = false, features = ["deflate"] }
ollama-rs = "*"
