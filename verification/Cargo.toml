[package]
name = "sql_executor"
version = "0.1.0"
edition = "2021"
publish = false

[dependencies]
async-trait = "=0.1.92"
connectorx = { version = "=0.4.6", default-features = false, features = ["dst_arrow", "fptr"] }
datafusion = { version = "=50.3.0", default-features = false }
futures = "=0.3.34"
tokio = { version = "=1.54.1", features = ["rt"] }
