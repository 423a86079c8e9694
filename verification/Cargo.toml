[package]
name = "http_pool_server"
version = "0.1.0"
edition = "2021"
publish = false
