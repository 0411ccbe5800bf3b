[package]
name = "sidebar"
version = "0.1.0"
edition = "2021"
publish = false

[dependencies]
wasm-bindgen = "0.2"
js-sys = "0.3"
web-sys = { version = "0.3", features = ["Window", "Document", "Location", "History", "ScrollRestoration", "HtmlElement", "HtmlInputElement", "Element"] }
dominator = "0.5"
futures = "0.3"
futures-signals = "0.3"
console_error_panic_hook = "0.1"
lazy_static = "1"
