[package]
name = "tetra"
version = "0.1.0"
edition = "2021"
publish = false

[dependencies]
glow = "=0.18.0"
hashbrown = "=0.9.1"
wasm-bindgen = "=0.2.129"
web-sys = { version = "=0.3.106", features = ["Document", "Element", "EventTarget", "HtmlCanvasElement", "KeyboardEvent", "WebGl2RenderingContext", "Window"] }
