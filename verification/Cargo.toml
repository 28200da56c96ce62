[package]
name = "galena"
version = "0.1.0"
edition = "2021"
publish = false

[dependencies]
anyhow = "1"
axum = { version = "0.7", features = ["ws"] }
base64 = "0.22"
clap = { version = "4", features = ["derive"] }
cookie = "0.18"
futures = "0.3"
include_dir = "0.7"
libc = "0.2"
mime = "0.3"
notify = "6"
rand = "0.8"
tokio = { version = "1", features = ["full"] }
tower-cookies = "0.10"
tower-http = { version = "0.5", features = ["fs", "trace"] }
tracing = "0.1"
tracing-subscriber = { version = "0.3", features = ["env-filter"] }
wasm-bindgen = "0.2"
web-sys = { version = "0.3", features = ["console", "Document", "Element", "ErrorEvent", "Event", "EventTarget", "HtmlElement", "HtmlInputElement", "KeyboardEvent", "Location", "MessageEvent", "MouseEvent", "Node", "Text", "WebSocket", "Window"] }
wee_alloc = "0.4"
