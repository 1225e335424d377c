[package]
name = "importer"
version = "0.1.0"
edition = "2021"
publish = false

[dependencies]
apalis = { version = "=0.4.9", default-features = false }
apalis-core = { version = "=0.4.9", default-features = false, features = ["storage", "chrono", "tokio-comp"] }
async-graphql = { version = "=7.2.1", features = ["chrono", "decimal"] }
chrono = { version = "=0.4.45", features = ["serde"] }
rust_decimal = "=1.43.0"
sea-orm = { version = "=2.0.4", default-features = false, features = ["macros", "with-chrono", "with-json", "with-rust_decimal"] }
serde = { version = "=1.0.229", features = ["derive"] }
serde_json = "=1.0.154"
tracing = "=0.1.44"
