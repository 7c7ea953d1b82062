[package]
name = "swap_plaintext"
version = "0.1.0"
edition = "2021"
publish = false

[dependencies]
anyhow = "*"
ark-ff = "*"
decaf377 = "*"
decaf377-ka = "*"
poseidon377 = "*"
blake2b_simd = "*"
chacha20poly1305 = "*"

[dev-dependencies]
rand_core = { version = "*", features = ["getrandom"] }
