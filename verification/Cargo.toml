[package]
name = "gtrend"
version = "0.1.0"
edition = "2021"
publish = false

[dependencies]
select = "=0.6.1"
serde = { version = "=1.0.229", features = ["derive"] }
serde_json = "=1.0.154"
reqwest = "=0.12.28"
tokio = { version = "=1.54.1", features = ["macros", "rt-multi-thread"] }
stacker = "0.1"
