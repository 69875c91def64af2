[package]
name = "rust_site"
version = "0.1.0"
edition = "2021"
publish = false

[dependencies]
yew = { version = "0.21", features = ["csr"] }
yew-router = "0.18"
stylist = { version = "0.13", features = ["yew", "parser"] }
gloo-utils = "0.2"
