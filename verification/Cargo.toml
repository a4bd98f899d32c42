[package]
name = "docker_hosts"
version = "0.1.0"
edition = "2021"
publish = false

[dependencies]
bollard = "0.18"
futures = "0.3"
sudo = "0.6"
thiserror = "1"
tokio = { version = "1", features = ["macros", "rt-multi-thread"] }
tracing = "0.1"
tracing-subscriber = "0.3"
