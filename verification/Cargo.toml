[package]
name = "spin_wheel"
version = "0.1.0"
edition = "2021"
publish = false

[dependencies]
wasm-bindgen = "0.2"
web-sys = { version = "0.3", features = ["CanvasRenderingContext2d", "Document", "Element", "Event", "EventTarget", "HtmlButtonElement", "HtmlCanvasElement", "HtmlElement", "Node", "Window"] }
console_error_panic_hook = "0.1"
