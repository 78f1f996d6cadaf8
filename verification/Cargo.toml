[package]
name = "llama_rgui"
version = "0.1.0"
edition = "2021"
publish = false

[dependencies]
uuid = { version = "1", features = ["v4"] }
serde = { version = "1", features = ["derive"] }
serde_json = "1"
tokio = { version = "1", features = ["full"] }
reqwest = { version = "0.12", default-features = false, features = ["rustls-tls"] }
rayon = "1"
walkdir = "2"
dirs = "5"
chrono = "0.4"
thiserror = "1"
open = "5"
nix = { version = "0.29", features = ["signal", "process"] }
