[package]
name = "trading_utils"
version = "0.1.0"
edition = "2021"
publish = false

[dependencies]
auto_ops = "0.3"
chrono = "0.4"
libloading = "0.6"
