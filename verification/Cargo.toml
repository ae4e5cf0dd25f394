[package]
name = "future_pool"
version = "0.1.0"
edition = "2021"

[dependencies]
futures = "0.3"
