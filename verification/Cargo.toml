[package]
name = "azure"
version = "0.1.0"
edition = "2021"
publish = false

[dependencies]
anyhow = "=1.0.104"
async-trait = "=0.1.92"
azure_core = { version = "=0.26.0", default-features = false }
azure_identity = "=0.26.0"
bytes = "=1.12.1"
chrono = "=0.4.45"
clap = { version = "=4.6.7", features = ["cargo", "string"] }
console_error_panic_hook = "=0.1.7"
rust-embed = "=8.13.0"
serde = { version = "=1.0.229", features = ["derive"] }
serde_json = "=1.0.154"
tokio = { version = "=1.54.1", features = ["macros", "rt-multi-thread", "time"] }
typespec_client_core = { version = "=0.5.0", default-features = false }
wasm-bindgen = "=0.2.129"
