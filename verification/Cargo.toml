[package]
name = "ohim"
version = "0.1.0"
edition = "2021"
publish = false

[dependencies]
anyhow = "1"
headers = "0.4"
regex = "1"
url = "2"
uuid = { version = "1", features = ["v4"] }
wasmtime = "34"
wasmtime-wasi = "34"
