[package]
name = "caddy_admin"
version = "0.1.0"
edition = "2021"
publish = false

[dependencies]
anyhow = "*"
log = "*"
reqwest = "*"
