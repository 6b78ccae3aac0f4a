[package]
name = "indexer_receipts"
version = "0.1.0"
edition = "2021"
publish = false

[dependencies]
alloy-primitives = { version = "=0.8.26", features = ["k256"] }
alloy-sol-types = "=0.8.26"
anyhow = "=1.0.104"
async-trait = "=0.1.92"
axum = "=0.6.20"
eventuals = "=0.6.7"
reqwest = { version = "=0.11.27", default-features = false, features = ["json"] }
serde = { version = "=1.0.229", features = ["derive"] }
serde_json = "=1.0.154"
sqlx = { version = "=0.7.4", default-features = false, features = ["postgres", "runtime-tokio"] }
thiserror = "=1.0.69"
