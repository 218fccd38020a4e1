[package]
name = "leptos_ws"
version = "0.1.0"
edition = "2021"
publish = false

[dependencies]
async-trait = "=0.1.92"
dashmap = "=6.2.1"
futures = "=0.3.34"
json-patch = "=4.2.0"
leptos = { version = "=0.8.22", features = ["hydration"] }
nanoid = "=0.5.0"
serde = { version = "=1.0.229", features = ["derive"] }
serde_json = "=1.0.154"
thiserror = "=2.0.21"
tokio = { version = "=1.54.1", features = ["sync", "rt"] }
