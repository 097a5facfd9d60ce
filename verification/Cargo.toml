[package]
name = "walk_the_dog"
version = "0.1.0"
edition = "2021"
publish = false

[dependencies]
anyhow = "=1.0.104"
async-trait = "=0.1.92"
gloo-utils = { version = "=0.2.0", features = ["serde"] }
js-sys = "=0.3.106"
serde = { version = "=1.0.229", features = ["derive"] }
wasm-bindgen = "=0.2.129"
wasm-bindgen-futures = "=0.4.79"
web-sys = { version = "=0.3.106", features = ["CanvasRenderingContext2d", "HtmlImageElement", "Response", "Window"] }
