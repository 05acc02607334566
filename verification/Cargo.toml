[package]
name = "ipadic_embedded"
version = "0.1.0"
edition = "2021"
publish = false

[dependencies]
lindera-dictionary = { version = "=2.3.4", features = ["compress"] }
rkyv = "=0.8.18"
once_cell = "=1.21.4"

[dev-dependencies]
serde_json = "*"
