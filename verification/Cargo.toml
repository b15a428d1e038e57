[package]
name = "daft_core"
version = "0.1.0"
edition = "2021"
publish = false

[dependencies]
arrow2 = "*"
pyo3 = { version = "*", features = ["auto-initialize"] }
futures = "*"
log = "*"
reqwest = { version = "*", default-features = false }
tokio = { version = "*", features = ["rt"] }
