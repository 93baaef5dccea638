[package]
name = "pallet-contracts"
version = "0.1.0"
edition = "2021"
publish = false

[dependencies]
parity-scale-codec = "3"
sp-io = "23"
wasmi = "0.28"
