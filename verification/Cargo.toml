[package]
name = "rust_tokio_example"
version = "0.1.0"
edition = "2021"
publish = false

[dependencies]
tokio = { version = "1", features = ["full"] }
async-trait = "0.1"
lazy_static = "1.4"
dotenv = "0.15"
futures = "0.3"
