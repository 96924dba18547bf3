[package]
name = "random_gateway"
version = "0.1.0"
edition = "2021"
publish = false

[dependencies]
rand = "0.8"
axum = "0.7"
tokio = { version = "1", features = ["full"] }
tonic = "0.12"
prost = "0.13"
serde = { version = "1", features = ["derive"] }
