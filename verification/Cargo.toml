[package]
name = "hash_service"
version = "0.1.0"
edition = "2021"
publish = false

[dependencies]
xxhash-rust = { version = "=0.8.19", features = ["xxh64"] }
serde_json = "=1.0.154"
walkdir = "=2.5.0"
directories-next = "=2.0.0"
reqwest = { version = "=0.12.28", default-features = false, features = ["json", "rustls-tls"] }
tokio = { version = "=1.54.1", features = ["rt-multi-thread", "macros"] }
tonic = "=0.12.3"
prost = "=0.13.5"
