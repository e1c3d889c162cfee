[package]
name = "embedded_ffi"
version = "0.1.0"
edition = "2021"
publish = false

[dependencies]
serde = { version = "1", features = ["derive"] }
serde_json = "1"
serde_cbor = "0.11"
libc = "0.2"
once_cell = "1"
tokio = { version = "1", features = ["rt"] }
