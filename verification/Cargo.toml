[package]
name = "certpath"
version = "0.1.0"
edition = "2021"
publish = false

[dependencies]
p256 = "0.13"
serde_json = "1"
x509-cert = "=0.2.5"
