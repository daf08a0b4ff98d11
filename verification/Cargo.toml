[package]
name = "gas_session"
version = "0.1.0"
edition = "2021"
publish = false

[dependencies]
aga8 = "=0.5.1"
colored = "=3.1.1"
