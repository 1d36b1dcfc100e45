[package]
name = "ledger"
version = "0.1.0"
edition = "2021"
publish = false

[dependencies]
axum = "0.7"
bb8-postgres = "*"
hyper = { version = "1", features = ["full"] }
hyper-util = { version = "0.1", features = ["full"] }
serde = { version = "1", features = ["derive"] }
tokio = { version = "1", features = ["full"] }
tower = { version = "0.4", features = ["util"] }
