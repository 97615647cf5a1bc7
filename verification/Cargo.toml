[package]
name = "component_cli"
version = "0.1.0"
edition = "2021"
publish = false

[dependencies]
wasmparser = "=0.263.0"
bytesize = "=2.7.0"
console = "=0.16.6"
clap = { version = "=4.6.7", features = ["derive"] }
comfy-table = "=7.2.2"
toml = "=1.1.8"
serde = { version = "=1.0.229", features = ["derive"] }
serde_json = "=1.0.154"
wasm-metadata = "=0.263.0"
