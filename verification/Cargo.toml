[package]
name = "kira"
version = "0.1.0"
edition = "2021"
publish = false

[dependencies]
ringbuf = "=0.3.3"
atomic-arena = "=0.1.2"
glam = { version = "=0.24.2", features = ["mint"] }
mint = "=0.5.9"
serde = { version = "=1.0.229", features = ["derive"] }
symphonia = "=0.6.1"
