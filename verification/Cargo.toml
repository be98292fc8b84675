[package]
name = "xor_errors"
version = "0.1.0"
edition = "2021"
publish = false

[dependencies]
base64 = "0.21"
hex = "0.4"
lz4_flex = "0.10"
z85 = "3.0"

[dev-dependencies]
smol = "2"
tokio = { version = "1", features = ["io-util"] }
