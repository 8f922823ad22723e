[package]
name = "tears"
version = "0.1.0"
edition = "2021"
publish = false

[dependencies]
axum = "*"
leptos = { version = "*", features = ["ssr"] }
leptos_axum = "*"
leptos_meta = { version = "*", features = ["ssr"] }
leptos_router = { version = "*", features = ["ssr"] }
tokio = { version = "*", features = ["macros", "net", "rt-multi-thread"] }
