[package]
name = "frame_lifecycle"
version = "0.1.0"
edition = "2021"
publish = false

[dependencies]
bytemuck = "1"
wgpu = "24"
winit = "0.30"
pollster = "0.4"
env_logger = "0.11"
console_error_panic_hook = "0.1"
console_log = "1"
wasm-bindgen = "0.2"
wasm-bindgen-futures = "0.4"
web-sys = { version = "0.3", features = ["Document", "Element", "HtmlCanvasElement", "Window"] }
