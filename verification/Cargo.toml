[package]
name = "sspi"
version = "0.1.0"
edition = "2021"
publish = false

[dependencies]
chrono = "*"
kerberos_crypto = "*"
picky-asn1 = "*"
picky-asn1-der = "*"
picky-krb = "*"
url = "*"
