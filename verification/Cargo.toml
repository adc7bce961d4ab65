[package]
name = "pflock"
version = "0.2.0"
edition = "2021"
publish = false

[dependencies]
lock_api = "0.4"
