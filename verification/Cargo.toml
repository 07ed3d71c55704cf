[package]
name = "tikv_client"
version = "0.1.0"
edition = "2021"
publish = false

[dependencies]
grpcio = "0.13.0"
