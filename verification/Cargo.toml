[package]
name = "payment_app"
version = "0.1.0"
edition = "2021"
publish = false

[dependencies]
abstract-app = "*"
cosmwasm-schema = "2"
cosmwasm-std = "2"
cw20 = "2"
cw-orch = "*"
