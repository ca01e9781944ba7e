[package]
name = "p-token"
version = "0.1.0"
edition = "2021"
publish = false

[dependencies]
bytemuck = "1"
pinocchio = "=0.8.4"
pinocchio-log = "=0.4.0"
pinocchio-pubkey = "=0.2.4"
