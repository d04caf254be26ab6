[package]
name = "inf_wasi"
version = "0.1.0"
edition = "2021"
publish = false

[dependencies]
toml_edit = "=0.21.1"
wit-component = "=0.201.0"
wasm-compose = "=0.201.0"
wasmparser = "=0.201.0"
serde_json = "=1.0.154"
indexmap = "=2.14.2"
anyhow = "=1.0.104"
clap = { version = "=4.6.7", features = ["derive"] }
serde = { version = "=1.0.229", features = ["derive"] }
actix-web = "=4.18.1"
