[package]
name = "smart_account_auth"
version = "0.1.0"
edition = "2021"
publish = false

[dependencies]
bech32 = "=0.11.1"
base64 = "=0.22.1"
sha2 = "=0.10.9"
ripemd = "=0.1.3"
sha3 = "=0.10.9"
cosmwasm-crypto = "=2.2.2"

[dev-dependencies]
ed25519-zebra = "=4.2.0"
k256 = "=0.13.4"
p256 = "=0.13.2"
