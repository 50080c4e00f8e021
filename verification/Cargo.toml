[package]
name = "mctp_emu"
version = "0.1.0"
edition = "2021"
publish = false

[dependencies]
smbus-pec = "1"
bytes = "1"
tokio = { version = "1", features = ["net", "sync", "rt", "rt-multi-thread", "macros", "time"] }
anyhow = "1"
thiserror = "1"
tracing = "0.1"
hexyl = "*"
async-trait = "0.1"
