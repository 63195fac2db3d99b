[package]
name = "xcvm"
version = "0.1.0"
edition = "2021"
publish = false

[dependencies]
ethabi = "=18.0.0"
ethereum-types = "=0.14.1"
hex = "=0.4.3"
cosmwasm-std = "=3.0.10"
serde = { version = "=1.0.229", features = ["derive"] }
schemars = "0.8"
