[package]
name = "benchmark_writer"
version = "0.1.0"
edition = "2021"
publish = false

[dependencies]
chrono = { version = "=0.4.45", default-features = false, features = ["now"] }
frame-benchmarking = "=39.1.1"
frame-support = "=39.1.0"
handlebars = "=3.5.5"
Inflector = { version = "=0.11.4", default-features = false }
serde = { version = "=1.0.229", features = ["derive"] }
