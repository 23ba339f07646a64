[package]
name = "lazuli"
version = "0.1.0"
edition = "2021"
publish = false

[dependencies]
js-sys = "=0.3.107"
powerpc = "=0.4.1"
wasm-bindgen = "=0.2.130"
wasm-bindgen-futures = "=0.4.80"
wasm-encoder = "=0.249.0"
web-sys = { version = "=0.3.107", features = ["console", "Document", "Element", "HtmlCanvasElement", "Navigator", "Window"] }
wgpu = { version = "=27.0.1", default-features = false, features = ["webgpu", "wgsl"] }
zerocopy = "=0.8.63"
