[package]
name = "tetthys-auth"
version = "0.1.0"
edition = "2021"
publish = false

[dependencies]
axum = "0.8"
leptos = { version = "0.8", features = ["ssr"] }
leptos_axum = "0.8"
