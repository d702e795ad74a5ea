[package]
name = "rend3-framework"
version = "0.1.0"
edition = "2021"
publish = false

[dependencies]
cfg-if = "1"
console_error_panic_hook = "0.1"
console_log = "1"
env_logger = "*"
glam = "*"
log = "0.4"
parking_lot = "0.12"
pollster = "*"
profiling = "*"
wasm-bindgen-futures = "0.4"
web-sys = "0.3"
web-time = "*"
wgpu = "23"
winit = "0.30"
