[package]
name = "proxy_pool"
version = "0.1.0"
edition = "2021"
publish = false

[dependencies]
anyhow = "*"
async-trait = "*"
futures = "*"
http = "*"
log = "*"
parking_lot = "*"
rand = "*"
reqwest = { version = "*", features = ["socks"] }
reqwest-middleware = "*"
thiserror = "*"
tokio = { version = "*", features = ["rt", "time", "sync", "macros"] }
