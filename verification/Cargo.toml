[package]
name = "producer_mux"
version = "0.1.0"
edition = "2021"
publish = false

[dependencies]
rand = "0.8"
serde = "1"
serde_json = "1"
tokio = { version = "1", default-features = false, features = ["rt", "sync"] }
futures = "0.3"
