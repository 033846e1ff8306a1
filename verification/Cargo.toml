[package]
name = "rig_budget"
version = "0.1.0"
edition = "2021"
publish = false

[dependencies]
anyhow = "1"
thiserror = "2"
tokio = { version = "1", features = ["macros", "rt", "time"] }
