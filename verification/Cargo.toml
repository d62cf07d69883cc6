[package]
name = "demo_lsp_server"
version = "0.1.0"
edition = "2021"
publish = false

[dependencies]
anyhow = "=1.0.104"
async-lock = "=2.8.0"
console_error_panic_hook = "=0.1.7"
dashmap = "=5.5.3"
futures = "=0.3.34"
js-sys = "=0.3.106"
log = "=0.4.34"
lsp-text = "=0.9.0"
ropey = "=1.6.1"
serde_json = "=1.0.154"
thiserror = "=1.0.69"
tower-lsp = "=0.17.0"
tree-sitter = "=0.20.10"
tree-sitter-javascript = "=0.20.4"
wasm-bindgen = "=0.2.129"
wasm-bindgen-futures = "=0.4.79"
wasm-streams = "=0.2.3"
web-sys = { version = "=0.3.106", features = ["console", "Window", "Document", "Element", "HtmlElement", "HtmlTextAreaElement", "CssStyleDeclaration", "WritableStream"] }

[dev-dependencies]
tree-sitter-rust = "0.20"
