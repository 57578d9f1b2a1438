[package]
name = "actor_core"
version = "0.1.0"
edition = "2021"
publish = false

[dependencies]
anyhow = "1"
async-trait = "0.1"
bastion = { version = "=0.4.5", features = ["scaling"] }
cqrs-es = "=0.4.12"
env_logger = "0.10"
log = "0.4"
serde = { version = "1", features = ["derive"] }
thiserror = "1"
tokio = { version = "=1.53.2", features = ["sync", "rt-multi-thread", "macros", "time"] }
