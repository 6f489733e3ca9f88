[package]
name = "prest"
version = "0.1.0"
edition = "2021"
publish = false

[dependencies]
hex = "0.4"
sha2 = "0.10"
toml = "*"
webmanifest = "*"
anyhow = "1"
axum = "*"
http = "*"
tower = "*"
futures = "0.3"
bytes = "1"
once_cell = "1"
tokio = { version = "1", features = ["rt-multi-thread", "net", "macros"] }
grass = "*"
wasm-bindgen-cli-support = "*"
