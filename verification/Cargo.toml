[package]
name = "tripwire"
version = "0.1.0"
edition = "2021"
publish = false

[dependencies]
tokio = { version = "=1.53.2", features = ["rt-multi-thread", "macros", "net", "io-util", "signal", "sync"] }
