[package]
name = "access_protocol"
version = "0.1.0"
edition = "2021"
publish = false

[dependencies]
solana-program = "=1.18.26"
borsh = "=0.10.4"
bonfida-utils = "=0.4.4"
