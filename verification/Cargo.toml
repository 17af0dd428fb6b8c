[package]
name = "argon"
version = "0.1.0"
edition = "2021"
publish = false

[dependencies]
leptos = { version = "*", features = ["ssr"] }
leptos_meta = { version = "*", features = ["ssr"] }
leptos_router = { version = "*", features = ["ssr"] }
wasm-bindgen = "*"
web-sys = { version = "*", features = ["Blob", "Document", "Element", "Event", "EventTarget", "File", "FileList", "FileReader", "HtmlAnchorElement", "HtmlElement", "HtmlInputElement", "HtmlTextAreaElement", "KeyboardEvent", "ProgressEvent", "Url", "Window"] }
