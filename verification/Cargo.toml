[package]
name = "meticulous"
version = "0.1.0"
edition = "2021"
publish = false

[dependencies]
wgpu = "0.20"
winit = "0.30"
tokio = { version = "1", features = ["macros", "rt-multi-thread"] }
tracing = "0.1"
tracing-subscriber = "0.3"
tracing-web = "0.1"
wasm-bindgen-futures = "0.4"
console_error_panic_hook = "0.1"
