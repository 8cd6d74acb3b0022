[package]
name = "sqlite-wasm-vfs"
version = "0.3.0"
edition = "2021"
publish = false

[dependencies]
async-lock = "3"
js-sys = "*"
rsqlite-vfs = "*"
thiserror = "2"
wasm-bindgen = "*"
