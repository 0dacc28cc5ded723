[package]
name = "mail_issue_id"
version = "0.1.0"
edition = "2021"
publish = false

[dependencies]
aws_lambda_events = { version = "*", default-features = false, features = ["ses"] }
lambda_runtime = "*"
serde = { version = "*", features = ["derive"] }
tokio = { version = "*", features = ["macros", "rt"] }
