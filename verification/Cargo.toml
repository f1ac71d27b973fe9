[package]
name = "usda_etl"
version = "0.1.0"
edition = "2021"
publish = false

[dependencies]
mongodb = "2"
tokio = { version = "1", features = ["full"] }
futures = "0.3"
serde = { version = "1", features = ["derive"] }
