[package]
name = "mun_frontend"
version = "0.1.0"
edition = "2021"
publish = false

[dependencies]
anyhow = "1"
lsp-types = "0.89"
salsa = "0.16"
