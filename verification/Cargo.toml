[package]
name = "faceted_search"
version = "0.1.0"
edition = "2021"
publish = false

[dependencies]
actix-files = "*"
actix-web = { version = "=4.18.1", default-features = false, features = ["macros"] }
leptos = { version = "=0.8.22", features = ["ssr"] }
leptos_actix = "=0.8.8"
leptos_meta = { version = "=0.8.7", features = ["ssr"] }
leptos_router = { version = "=0.8.17", features = ["ssr"] }
meilisearch-sdk = "=0.33.0"
reqwest = { version = "=0.12.28", default-features = false, features = ["json"] }
serde = { version = "=1.0.229", features = ["derive"] }
serde_json = "=1.0.154"
wasm-bindgen = "=0.2.129"
web-sys = { version = "=0.3.106", features = ["HtmlInputElement"] }
