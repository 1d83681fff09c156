[package]
name = "certval"
version = "0.1.0"
edition = "2021"
publish = false

[dependencies]
der = { version = "0.7", features = ["alloc", "oid"] }
spki = { version = "0.7", features = ["alloc"] }
x509-cert = "0.2"
const-oid = { version = "0.9", features = ["db"] }
