[package]
name = "insightora_core"
version = "0.1.0"
edition = "2021"
publish = false

[dependencies]
num_cpus = "1"
once_cell = "1"
polars = { version = "0.38", default-features = false, features = ["csv"] }
pyo3 = { version = "0.20", features = ["abi3-py38", "extension-module"] }
rayon = "1"
thiserror = "1"
