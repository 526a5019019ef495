[package]
name = "iondrive"
version = "0.1.0"
edition = "2021"
publish = false

[dependencies]
norad = "*"
plist = "*"
pyo3 = "*"
