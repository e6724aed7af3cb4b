[package]
name = "ravix"
version = "0.1.0"
edition = "2021"
publish = false

[dependencies]
anyhow = "=1.0.104"
async-trait = "=0.1.92"
axum = "=0.7.9"
bson = "=2.15.0"
chrono = "=0.4.45"
clap = { version = "=4.6.7", features = ["derive"] }
futures = "=0.3.34"
handlebars = "=6.4.4"
inventory = "=0.3.25"
log = "=0.4.35"
mongodb = "3"
proc-macro2 = "=1.0.107"
quote = "=1.0.47"
serde = { version = "=1.0.229", features = ["derive"] }
serde_json = "=1.0.154"
syn = { version = "=2.0.119", features = ["full"] }
thiserror = "=1.0.69"
tokio = { version = "=1.54.1", features = ["macros", "rt-multi-thread", "net", "fs", "sync", "io-util", "time"] }
uuid = { version = "=1.29.0", features = ["v4"] }
validator = { version = "=0.18.1", features = ["derive"] }
walkdir = "=2.5.0"
