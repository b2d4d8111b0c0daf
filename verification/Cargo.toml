[package]
name = "penumbra_swap"
version = "0.1.0"
edition = "2021"
publish = false

[dependencies]
anyhow = "1"
blake2b_simd = "1"
chacha20poly1305 = "0.9"
decaf377 = "*"
thiserror = "1"
