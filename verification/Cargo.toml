[package]
name = "arbitrage"
version = "0.1.0"
edition = "2021"
publish = false

[dependencies]
openlimits = "*"
tokio = { version = "*", features = ["macros", "rt-multi-thread"] }
rust_decimal = "*"
chrono = "*"
