[package]
name = "injection_engine"
version = "0.1.0"
edition = "2021"
publish = false

[dependencies]
enigo = "0.3"
tokio = { version = "1", features = ["time", "sync"] }
