[package]
name = "dbt_docs_server"
version = "0.1.0"
edition = "2021"
publish = false

[dependencies]
arrow = { version = "=59.3.2", default-features = false }
arrow-array = "=59.3.2"
arrow-json = "=59.3.2"
arrow-schema = "=59.3.2"
async-trait = "=0.1.92"
axum = "=0.8.9"
base64 = "=0.23.1"
datafusion = { version = "=55.2.0", default-features = false, features = ["parquet"] }
futures = "=0.3.34"
mime_guess = "=2.0.5"
parquet = { version = "=59.3.2", default-features = false, features = ["arrow", "async"] }
prost = "=0.14.4"
rust-embed = "=8.13.0"
scc = "=3.8.8"
serde = { version = "=1.0.229", features = ["derive"] }
serde_json = "=1.0.154"
tokio = { version = "=1.54.1", features = ["sync", "rt", "time", "macros", "fs"] }
tracing = "=0.1.44"
