[package]
name = "arroyo-sql"
version = "0.1.0"
edition = "2021"
publish = false

[dependencies]
anyhow = "=1.0.104"
arrow-schema = "=46.0.0"
chrono = "=0.4.38"
datafusion-expr = "=31.0.0"
proc-macro2 = "=1.0.107"
quote = "=1.0.47"
syn = { version = "=2.0.119", features = ["full"] }
