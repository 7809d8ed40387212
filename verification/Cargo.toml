[package]
name = "polyproto"
version = "0.1.0"
edition = "2021"
publish = false

[dependencies]
der = { version = "0.7", features = ["alloc", "oid", "pem"] }
spki = { version = "0.7", features = ["alloc", "pem"] }
x509-cert = { version = "0.2", features = ["pem"] }
serde = { version = "1", features = ["derive"] }
thiserror = "1"
