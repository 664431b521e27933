[package]
name = "ordadb_sql"
version = "0.1.0"
edition = "2021"
publish = false

[dependencies]
sqlparser = { version = "=0.62.0", features = ["visitor"] }
chrono = "=0.4.45"
rust_decimal = "=1.43.0"
serde = { version = "=1.0.229", features = ["derive"] }
