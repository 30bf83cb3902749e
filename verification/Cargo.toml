[package]
name = "netstack_diagnostics"
version = "0.1.0"
edition = "2021"
publish = false

[dependencies]
etherparse = "*"
x509-parser = "*"
