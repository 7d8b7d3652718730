[package]
name = "router"
version = "0.1.0"
edition = "2021"
publish = false

[dependencies]
async-trait = "0.1"
error-stack = "0.3"
serde_json = "1"
time = "0.3"
