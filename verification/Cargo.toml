[package]
name = "simple-keyvalue"
version = "0.1.0"
edition = "2021"
publish = false

[dependencies]
anyhow = "=1.0.104"
async-trait = "=0.1.92"
byteorder = "=1.5.0"
deoxysii = "=0.2.4"
oasis-cbor-value = "=0.5.1"
sha2 = "=0.11.1"
slog = "=2.8.2"
thiserror = "=1.0.69"
