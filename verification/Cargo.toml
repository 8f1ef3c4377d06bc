[package]
name = "ringcrypt"
version = "0.1.0"
edition = "2021"
publish = false

[dependencies]
argon2 = "=0.6.0"
ring = "=0.17.14"
rayon = "=1.12.0"
walkdir = "=2.5.0"
rpassword = "=7.5.4"
tar = "=0.4.46"
zstd = { version = "=0.14.0", features = ["zstdmt"] }
num_cpus = "=1.17.0"
