[package]
name = "crab_dashboard"
version = "0.1.0"
edition = "2021"
publish = false

[dependencies]
serde = { version = "1", features = ["derive"] }
serde_json = "1"
urlencoding = "2"
log = "0.4"
console_log = "1"
console_error_panic_hook = "0.1"
wasm-bindgen = "0.2"
js-sys = "0.3"
web-sys = { version = "0.3", features = ["Window", "Document", "Storage", "HtmlDocument", "HtmlTextAreaElement", "HtmlElement", "Element", "Node", "CssStyleDeclaration", "Navigator", "Clipboard", "Location", "EventSource", "Headers"] }
gloo-net = { version = "0.6", features = ["http", "json"] }
gloo-timers = { version = "0.3", features = ["futures"] }
