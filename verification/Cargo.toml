[package]
name = "clickhouse_pool"
version = "0.1.0"
edition = "2021"
publish = false

[dependencies]
clickhouse = { version = "*", default-features = false }
tokio = { version = "1", features = ["sync", "rt", "rt-multi-thread", "time"] }
