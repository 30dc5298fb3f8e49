[package]
name = "accountability_vault"
version = "0.1.0"
edition = "2021"
publish = false

[dependencies]
soroban-sdk = "=20.5.0"

[dev-dependencies]
# The test utilities of soroban-sdk 20 derive for arbitrary 1.3, with which a
# later derive_arbitrary does not compile.
derive_arbitrary = "~1.3.2"
soroban-sdk = { version = "=20.5.0", features = ["testutils"] }
