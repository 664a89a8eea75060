[package]
name = "fbapi"
version = "0.1.0"
edition = "2021"
publish = false

[dependencies]
serde_json = "=1.0.154"
rust-crypto = "=0.2.36"
reqwest = { version = "=0.11.27", default-features = false, features = ["json", "multipart", "stream"] }
rusoto_core = { version = "=0.48.0", default-features = false, features = ["rustls"] }
thiserror = "=1.0.69"
tokio = { version = "=1.54.1", features = ["time"] }
