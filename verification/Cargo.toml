[package]
name = "tenantm"
version = "0.1.0"
edition = "2021"
publish = false

[dependencies]
chrono = "0.4"
dotenvy = "0.15"
prost = "0.13"
tokio = { version = "1", features = ["macros", "rt-multi-thread", "sync"] }
tonic = "0.12"
tracing = "0.1"
