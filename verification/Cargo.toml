[package]
name = "policy_engine"
version = "0.1.0"
edition = "2021"
publish = false

[dependencies]
openapiv3 = "=2.2.0"
serde_json = "=1.0.154"
actix-web = "=4.18.1"
