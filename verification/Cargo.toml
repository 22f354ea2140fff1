[package]
name = "nginx-x402"
version = "0.1.0"
edition = "2021"
publish = false

[dependencies]
rust-x402 = "*"
rust_decimal = "1"
serde = { version = "1", features = ["derive"] }
serde_json = "1"
tokio = { version = "1", features = ["rt-multi-thread", "time", "macros"] }
prometheus = "*"
log = "0.4"
ngx = "*"
