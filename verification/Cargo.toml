[package]
name = "header_augmenting_filter"
version = "0.1.0"
edition = "2021"
publish = false

[dependencies]
log = "0.4"
proxy-wasm = "0.1"
serde = { version = "1", features = ["derive"] }
serde_json = "1"
serde-humanize-rs = "0.1"
