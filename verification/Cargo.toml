[package]
name = "infrastructure"
version = "0.1.0"
edition = "2021"
publish = false

[dependencies]
serde = { version = "=1.0.229", features = ["derive"] }
serde_json = "=1.0.154"
toml = "=1.1.8"
url = "=2.5.8"
axum = { version = "*", default-features = false }
reqwest = { version = "*", default-features = false, features = ["stream"] }
bytes = "*"
tracing = "*"
wasmtime = { version = "=45.0.3", default-features = false, features = ["std", "runtime", "cranelift", "component-model"] }
rquickjs = "*"
