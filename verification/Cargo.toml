[package]
name = "wayland_mcp"
version = "0.1.0"
edition = "2021"
publish = false

[dependencies]
async-trait = "*"
base64 = "*"
image = { version = "*", default-features = false, features = ["png"] }
libc = "*"
png = "*"
rmcp = { version = "*", features = ["server", "transport-io"] }
serde = { version = "1", features = ["derive"] }
serde_json = "1"
tempfile = "3"
tokio = { version = "1", features = ["full"] }
tokio-util = "*"
tracing = "*"
tracing-subscriber = { version = "*", features = ["env-filter"] }
