[package]
name = "tracing_collector"
version = "0.1.0"
edition = "2021"

[dependencies]
strip-ansi-escapes = "=0.1.1"
tracing = "=0.1.44"
tracing-subscriber = "=0.3.23"
