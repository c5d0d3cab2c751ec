[package]
name = "dnaonecalc_host"
version = "0.1.0"
edition = "2021"
publish = false

[dependencies]
js-sys = "=0.3.107"
web-sys = { version = "=0.3.107", features = ["Clipboard", "Element", "EventTarget", "HtmlElement", "HtmlTextAreaElement", "Navigator", "Node", "Window"] }
