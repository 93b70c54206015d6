[package]
name = "wexp"
version = "0.1.0"
edition = "2021"
publish = false

[dependencies]
bytemuck = "=1.25.2"
cgmath = "=0.18.0"
console_error_panic_hook = "=0.1.7"
console_log = "=0.2.2"
image = { version = "=0.24.9", default-features = false, features = ["png"] }
log = "=0.4.34"
wasm-bindgen = "=0.2.129"
wasm-bindgen-futures = "=0.4.79"
web-sys = { version = "=0.3.57", features = ["Window", "Document", "Element", "HtmlElement", "Node", "console"] }
wgpu = "=0.12.0"
winit = "=0.26.1"
