[package]
name = "eulend"
version = "0.1.0"
edition = "2021"
publish = false

[dependencies]
cosmwasm-std = "1.5"
cw-storage-plus = "1.2"
serde = { version = "1", features = ["derive"] }
serde_json = "1"
thiserror = "1"
schemars = "0.8"
cosmwasm-schema = "1.5"
cw2 = "1.1"
cw20 = "1.1"
anyhow = "1"
reqwest = { version = "0.11", default-features = false, features = ["json"] }
tokio = { version = "1", features = ["rt"] }
