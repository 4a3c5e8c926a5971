[package]
name = "saml_mdq"
version = "0.1.0"
edition = "2021"
publish = false

[dependencies]
hex = "=0.4.3"
moka = { version = "=0.12.16", features = ["sync"] }
reqwest = { version = "=0.13.5", default-features = false, features = ["blocking"] }
samael = { version = "=0.0.20", default-features = false }
sha1 = "=0.11.0"
url = "=2.5.8"
