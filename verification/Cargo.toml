[package]
name = "image_classifier"
version = "0.1.0"
edition = "2021"
publish = false

[dependencies]
anyhow = "1"
burn = { version = "0.18", default-features = false, features = ["std", "autodiff", "wgpu", "dataset"] }
burn-wgpu = { version = "0.18", default-features = false }
clap = { version = "4", default-features = false, features = ["std", "derive", "help", "usage", "error-context"] }
console_error_panic_hook = "0.1"
image = { version = "0.25", default-features = false, features = ["png"] }
js-sys = "0.3"
serde = { version = "1", features = ["derive"] }
serde_json = "1"
wasm-bindgen = "0.2"
