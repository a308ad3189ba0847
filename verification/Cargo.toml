[package]
name = "mindustry_mods"
version = "0.1.0"
edition = "2021"
publish = false

[dependencies]
anyhow = "=1.0.104"
chrono = { version = "=0.4.45", features = ["serde"] }
directories = "=6.0.0"
humantime = "=2.4.0"
js-sys = "=0.3.69"
pulldown-cmark = "=0.13.5"
pyo3 = "=0.30.1"
seed = { version = "=0.10.0", features = ["routing"] }
serde = { version = "=1.0.229", features = ["derive"] }
serde-hjson = "=1.1.0"
serde_json = "=1.0.154"
thiserror = "=1.0.69"
tokio = "=0.2.25"
wasm-bindgen = "=0.2.92"
web-sys = { version = "=0.3.69", features = ["Document", "HtmlElement", "Response", "Window"] }
