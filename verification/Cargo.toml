[package]
name = "pilatus_leptos"
version = "0.1.0"
edition = "2021"
publish = false

[dependencies]
anyhow = "=1.0.104"
serde = { version = "=1.0.229", features = ["derive"] }
serde_json = "=1.0.154"
uuid = { version = "=1.29.0", features = ["v4"] }
pilatus = { version = "=0.1.0", default-features = false }
impex = "=0.1.0"
imbuf = "=0.3.4"
leptos = "=0.8.23"
leptos_router = "0.8"
thaw = "=0.4.8"
gloo-net = "=0.7.0"
gloo-timers = { version = "0.3", features = ["futures"] }
web-sys = { version = "0.3", features = ["Window", "Document", "Location", "VisibilityState", "File", "FileList", "DataTransfer", "DragEvent", "console"] }
wasm-bindgen-futures = "0.4"
futures-util = "0.3"
console_error_panic_hook = "0.1"
tracing = "0.1"
tracing-subscriber = "0.3"
tracing-log = "0.2"
