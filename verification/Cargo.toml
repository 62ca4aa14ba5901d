[package]
name = "m_browser"
version = "0.1.0"
edition = "2021"
publish = false

[dependencies]
anyhow = "1"
pollster = "0.4"
pulldown-cmark = { version = "=0.13.5", default-features = false }
wasi-webgpu-wasmtime = "=0.3.1"
wasmtime = "=48.0.7"
wasmtime-wasi = "=48.0.7"
wgpu-core = "=29.0.4"
wgpu-types = "=29.0.4"
