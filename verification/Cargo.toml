[package]
name = "plotters-canvas"
version = "0.3.0"
edition = "2021"
publish = false

[dependencies]
js-sys = "0.3"
plotters-backend = "0.3"
wasm-bindgen = "0.2"
web-sys = { version = "0.3", features = ["CanvasRenderingContext2d", "Document", "Element", "HtmlCanvasElement", "Window"] }
