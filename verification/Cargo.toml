[package]
name = "adxl345_driver"
version = "0.1.0"
edition = "2021"
publish = false

[dependencies]
rppal = "0.13.1"
thiserror = "1"
