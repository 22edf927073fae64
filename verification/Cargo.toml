[package]
name = "rs_asn1der2uuid7"
version = "0.1.0"
edition = "2021"
publish = false

[dependencies]
der = { version = "0.7", features = ["alloc"] }
uuid = { version = "1", features = ["v7"] }
