[package]
name = "math_accent"
version = "0.1.0"
edition = "2021"
publish = false

[dependencies]
icu_properties = { version = "=1.5.1", features = ["serde"] }
icu_provider = { version = "=1.5.0", features = ["serde"] }
icu_provider_blob = "=1.5.0"
typst-assets = { version = "=0.14.2", features = ["fonts"] }
typst = "=0.13.1"
typst-svg = "=0.13.1"
wasm-bindgen = "=0.2.129"
