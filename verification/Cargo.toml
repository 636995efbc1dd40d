[package]
name = "business_core_postgres"
version = "0.1.0"
edition = "2021"
publish = false

[dependencies]
uuid = { version = "1", features = ["v4"] }
rust_decimal = "1"
chrono = { version = "0.4", default-features = false, features = ["clock", "std"] }
parking_lot = "0.12"
async-trait = "0.1"
tokio = { version = "1", features = ["sync", "rt", "time"] }
sqlx = { version = "0.8", default-features = false, features = ["postgres", "runtime-tokio", "uuid", "chrono", "rust_decimal"] }
