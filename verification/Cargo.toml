[package]
name = "geyser_postgres_sink"
version = "0.1.0"
edition = "2021"
publish = false

[dependencies]
bs58 = "0.4"
bytemuck = "1"
crossbeam-channel = "0.5"
log = "0.4"
openssl = "0.10"
postgres = "0.19"
postgres-openssl = "0.5"
