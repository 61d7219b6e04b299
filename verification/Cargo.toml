[package]
name = "jds_mempool"
version = "0.1.0"
edition = "2021"
publish = false

[dependencies]
base64 = "0.21"
bitcoin = "0.30"
hex = "0.4"
hyper = { version = "0.14", features = ["client", "http1", "tcp"] }
reqwest = { version = "0.11", default-features = false, features = ["json"] }
serde = { version = "1", features = ["derive"] }
serde_json = "1"
tokio = { version = "1", features = ["macros", "rt-multi-thread"] }
bitcoincore-rpc = "0.17"
