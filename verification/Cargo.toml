[package]
name = "atomic_habits"
version = "0.1.0"
edition = "2021"
publish = false

[dependencies]
hdk = "=0.1.6"
hdi = "=0.2.6"
serde = { version = "=1.0.166", features = ["derive"] }
# Not called directly: held at this version so that rmp-serde 0.15, which
# hdk reaches through holochain_serialized_bytes, builds.
rmp = "=0.8.10"
