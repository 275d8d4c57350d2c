[package]
name = "image_ingest"
version = "0.1.0"
edition = "2021"
publish = false

[dependencies]
base64 = "0.13"
chrono = "0.4"
hyper = { version = "0.14", features = ["full"] }
hyper-tls = "0.5"
image = "0.24"
multer = "2"
serde = { version = "1", features = ["derive"] }
serde_json = "1"
tokio = { version = "1", features = ["full"] }
