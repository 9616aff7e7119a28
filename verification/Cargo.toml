[package]
name = "docker_client"
version = "0.1.0"
edition = "2021"
publish = false

[dependencies]
base64 = "=0.13.1"
futures = "=0.3.34"
hyper = { version = "=0.14.32", features = ["client", "http1", "tcp"] }
hyperlocal = "=0.8.0"
serde = { version = "=1.0.229", features = ["derive"] }
serde_json = "=1.0.154"
tokio = { version = "=1.54.1", features = ["rt"] }
unix_socket = "=0.5.0"

[dev-dependencies]
httparse = "=1.10.1"
