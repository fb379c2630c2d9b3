[package]
name = "reading_app_web"
version = "0.1.0"
edition = "2021"
publish = false

[dependencies]
anyhow = "1"
chrono = "0.4"
serde = { version = "1", features = ["derive"] }
toml = "0.8"
uuid = { version = "1", features = ["v4", "js"] }
eframe = { version = "0.31", default-features = false, features = ["glow", "default_fonts", "x11"] }
indexed_db_futures = { version = "0.6", features = ["serde"] }
wasm-bindgen = "0.2"
wasm-bindgen-futures = "0.4"
web-sys = { version = "0.3", features = ["Window", "Document", "Element", "HtmlCanvasElement", "console"] }
console_error_panic_hook = "0.1"
tracing = "0.1"
tracing-wasm = "0.2"
