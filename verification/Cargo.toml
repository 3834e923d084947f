[package]
name = "sdm_lister"
version = "0.1.0"
edition = "2021"
publish = false

[dependencies]
float-pretty-print = "*"
prost = "0.13"
prost-types = "0.13"
tonic = { version = "0.12", features = ["tls"] }
tokio = { version = "1", features = ["rt-multi-thread", "macros", "fs"] }
yup-oauth2 = "*"
