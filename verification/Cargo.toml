[package]
name = "fmodel_rust_postgres"
version = "0.1.0"
edition = "2021"
publish = false

[dependencies]
fmodel-rust = "=0.9.1"
pgrx = "=0.16.1"
serde = { version = "=1.0.229", features = ["derive"] }
serde_json = "=1.0.154"
thiserror = "=2.0.21"
uuid = { version = "=1.29.0", features = ["v4", "serde"] }
