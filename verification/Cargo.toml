[package]
name = "task_manager"
version = "0.1.0"
edition = "2021"
publish = false

[dependencies]
async-trait = "0.1"
dashmap = "6"
datafusion = { version = "*", default-features = false }
datafusion-proto = { version = "*", default-features = false }
log = "0.4"
rand = "0.9"
tokio = { version = "1", features = ["macros", "rt", "sync", "time"] }
