[package]
name = "cedar_policy_core"
version = "0.1.0"
edition = "2021"
publish = false

[dependencies]
itertools = "=0.14.0"
miette = "=7.6.0"
nonempty = "=0.12.0"
serde = { version = "=1.0.229", features = ["derive"] }
serde_json = "=1.0.154"
smol_str = "=0.3.7"
thiserror = "=2.0.21"
