[package]
name = "netcli"
version = "0.1.0"
edition = "2021"
publish = false

[dependencies]
regex = "*"
encoding_rs = "*"
ssh2 = "*"
