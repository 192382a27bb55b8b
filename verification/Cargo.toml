[package]
name = "prick"
version = "0.1.0"
edition = "2021"
publish = false

[dependencies]
nlprule = "=0.6.4"
rust-bert = "=0.23.0"
serde = { version = "=1.0.229", features = ["derive"] }
tokio = { version = "=1.53.2", features = ["full"] }
warp = "=0.3.7"
