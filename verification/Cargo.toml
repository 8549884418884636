[package]
name = "learn_wgpu"
version = "0.1.0"
edition = "2021"
publish = false

[dependencies]
cfg-if = "=1.0.5"
console_error_panic_hook = "=0.1.7"
console_log = "=0.2.2"
env_logger = "=0.9.3"
log = "=0.4.34"
pollster = "=0.2.5"
wasm-bindgen = "=0.2.129"
web-sys = { version = "=0.3.72", features = ["Document", "Element", "Window"] }
wgpu = "0.13"
winit = "=0.27.5"
