[package]
name = "excelsheet"
version = "0.1.0"
edition = "2021"
publish = false

[dependencies]
anyhow = "1"
arrow = { version = "*", default-features = false, features = ["ipc"] }
calamine = { version = "0.19", features = ["dates"] }
chrono = { version = "0.4", default-features = false }
pyo3 = { version = "*", features = ["anyhow", "abi3-py39"] }
