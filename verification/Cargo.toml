[package]
name = "letter_grid"
version = "0.1.0"
edition = "2021"
publish = false

[dependencies]
leptos = { version = "0.6", features = ["csr"] }
wasm-bindgen = "0.2"
wasm-bindgen-futures = "0.4"
