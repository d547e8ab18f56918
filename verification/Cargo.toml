[package]
name = "storage_service_types"
version = "0.1.0"
edition = "2021"
publish = false

[dependencies]
bcs = "0.1.6"
num-traits = "0.2.19"
serde = { version = "1", features = ["derive"] }
thiserror = "1.0.69"
