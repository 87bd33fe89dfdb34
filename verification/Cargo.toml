[package]
name = "mnk_game"
version = "0.1.0"
edition = "2021"
publish = false

[dependencies]
log = "0.4"
rand = "0.8"
wasm-logger = "0.2"
yew = { version = "0.21", features = ["csr"] }
