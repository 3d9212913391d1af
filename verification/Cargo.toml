[package]
name = "vpces_controller"
version = "0.1.0"
edition = "2021"
publish = false

[dependencies]
fastrand = "=2.5.0"
anyhow = "=1.0.104"
clap = { version = "=4.6.7", features = ["derive"] }
env_logger = "=0.11.11"
log = "=0.4.34"
tokio = { version = "=1.54.1", features = ["macros", "rt-multi-thread", "time"] }
aws-config = "=1.12.0"
aws-types = "=1.6.0"
aws-sdk-sts = "=1.119.0"
aws-sdk-organizations = "=1.132.0"
