[package]
name = "ctc"
version = "0.1.0"
edition = "2021"
publish = false

[dependencies]
anyhow = "=1.0.104"
embedded-svc = "=0.28.1"
esp-idf-hal = "=0.44.1"
esp-idf-svc = "=0.49.1"
esp-idf-sys = "=0.35.0"
log = "=0.4.34"
serde = { version = "=1.0.229", features = ["derive"] }
serde_json = "=1.0.154"
