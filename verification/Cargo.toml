[package]
name = "language-server"
version = "0.1.0"
edition = "2021"
publish = false

[dependencies]
async-trait = "0.1"
futures = "0.3"
futures_codec = "0.4"
log = "0.4"
lsp-types = "0.74"
serde = { version = "1", features = ["derive"] }
serde_json = { version = "1", features = ["preserve_order"] }
typed-builder = "*"
