[package]
name = "route53_export"
version = "0.1.0"
edition = "2021"
publish = false

[dependencies]
aws-config = "*"
aws-sdk-route53 = "*"
clap = { version = "*", features = ["derive"] }
color-eyre = "*"
inquire = "*"
tokio = { version = "*", features = ["macros", "rt-multi-thread", "fs"] }

[dev-dependencies]
serde_json = "*"
