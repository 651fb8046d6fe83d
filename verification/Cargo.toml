[package]
name = "pooltogether_koinly_accounting"
version = "0.1.0"
edition = "2021"
publish = false

[dependencies]
alloy = { version = "*", default-features = false, features = ["std", "reqwest", "provider-http", "rpc-types"] }
chrono = "*"
csv = "*"
dotenv = "*"
eyre = "*"
tokio = { version = "*", features = ["macros", "rt-multi-thread"] }
