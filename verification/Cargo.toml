[package]
name = "valkyrie_lsp"
version = "0.1.0"
edition = "2021"
publish = false

[dependencies]
tokio = { version = "*", features = ["full"] }
tower-lsp = "*"
