[package]
name = "roqoqo"
version = "0.1.0"
edition = "2021"
publish = false

[dependencies]
qoqo_calculator = { version = "=1.9.1", features = ["json_schema"] }
ndarray = "=0.16.1"
num-complex = "=0.4.6"
serde = { version = "=1.0.229", features = ["derive"] }
serde_json = "=1.0.154"
schemars = "1"
