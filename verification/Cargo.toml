[package]
name = "rustyscript"
version = "0.1.0"
edition = "2021"
publish = false

[dependencies]
anyhow = "=1.0.104"
deno_core = "=0.413.0"
deno_tls = "=0.247.0"
serde_json = "=1.0.154"
url = "=2.5.8"
