[package]
name = "beancount_parser"
version = "0.1.0"
edition = "2021"
publish = false

[dependencies]
chrono = { version = "=0.4.45", default-features = false }
rust_decimal = { version = "=1.43.0", default-features = false }
pyo3 = { version = "=0.22.6", default-features = false, features = ["macros", "chrono", "rust_decimal"] }
