[package]
name = "credscan"
version = "0.1.0"
edition = "2021"
publish = false

[dependencies]
regex = "=1.13.1"
rayon = "=1.12.0"
futures = "=0.3.34"
indicatif = "0.17"
