[package]
name = "quote_verify"
version = "0.1.0"
edition = "2021"
publish = false

[dependencies]
bindgen = "0.69"
displaydoc = "0.2"
p256 = "0.13"
sha2 = "0.10"
x509-parser = "0.16"
