[package]
name = "canvas_backend"
version = "0.1.0"
edition = "2021"
publish = false

[dependencies]
ratatui = { version = "0.26", default-features = false }
wasm-bindgen = "0.2"
web-sys = { version = "0.3", features = ["CanvasRenderingContext2d", "HtmlCanvasElement", "DomRect", "Element", "Window"] }
