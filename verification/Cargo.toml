[package]
name = "stryke-gcp"
version = "0.19.0"
edition = "2021"
publish = false

[dependencies]
base64 = "0.22"
urlencoding = "2"
serde = { version = "1", features = ["derive"] }
serde_json = "1"
anyhow = "1"
once_cell = "1"
http = "1"
clap = { version = "4", features = ["derive", "env"] }
tokio = { version = "1", features = ["rt-multi-thread", "macros", "io-std", "io-util", "fs"] }
reqwest = { version = "0.12", default-features = false, features = ["json", "rustls-tls"] }
google-cloud-auth = "1"
