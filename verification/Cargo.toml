[package]
name = "sagepas"
version = "0.1.0"
edition = "2021"
publish = false

[dependencies]
uuid = { version = "=1.29.0", features = ["v4"] }
chrono = "=0.4.45"
regex = "=1.13.1"
serde = { version = "=1.0.229", features = ["derive"] }
serde_json = "=1.0.154"
rust_decimal = "=1.43.0"
envy = "=0.4.2"
reqwest = { version = "=0.12.28", default-features = false, features = ["json"] }
tokio = { version = "=1.54.1", features = ["rt", "macros", "time", "sync", "process", "fs"] }
jsonwebtoken = "=9.3.1"
anyhow = "=1.0.104"
thiserror = "=1.0.69"
sqlx = { version = "=0.8.6", default-features = false, features = ["runtime-tokio", "postgres", "chrono", "uuid", "json", "rust_decimal", "macros"] }
redis = { version = "=0.25.5", features = ["tokio-comp"] }
printpdf = { version = "=0.7.0", default-features = false }
axum = "=0.7.9"
async-trait = "=0.1.92"
tracing = "=0.1.44"
base64 = "=0.22.1"
time = "=0.3.55"
azure_core = "=0.20.0"
azure_identity = "=0.20.0"
azure_storage = "=0.20.0"
azure_storage_blobs = "=0.20.0"
