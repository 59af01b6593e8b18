[package]
name = "wex"
version = "0.1.0"
edition = "2021"
publish = false

[dependencies]
anyhow = "=1.0.104"
async-nats = "=0.50.0"
clap = { version = "=4.6.7", features = ["derive"] }
futures = "=0.3.34"
reqwest = { version = "=0.12.28", default-features = false, features = ["rustls-tls"] }
serde = { version = "=1.0.229", features = ["derive"] }
tokio = { version = "=1.54.1", features = ["fs", "macros", "rt-multi-thread", "signal", "sync"] }
toml = "=1.1.8"
tracing = "=0.1.44"
tracing-subscriber = { version = "=0.3.23", features = ["env-filter"] }
url = "=2.5.8"
wasi-preview1-component-adapter-provider = "=25.0.1"
wasmparser = "=0.262.0"
wasmtime = "=25.0.3"
wasmtime-cli-flags = { version = "=25.0.3", features = ["async", "component-model", "cranelift", "pooling-allocator"] }
wasmtime-wasi = "=25.0.3"
wasmtime-wasi-http = "=25.0.3"
wit-component = "=0.262.0"
