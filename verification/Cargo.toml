[package]
name = "ping_handler"
version = "0.1.0"
edition = "2021"
publish = false

[dependencies]
async-trait = "*"
dyn-clone = "*"
futures = "*"
