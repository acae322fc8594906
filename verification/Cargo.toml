[package]
name = "xai-grok-models"
version = "0.1.0"
edition = "2021"
publish = false

[dependencies]
indexmap = "2"
serde_json = "1"
tracing = "0.1"
