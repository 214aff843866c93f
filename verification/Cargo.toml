[package]
name = "cliphist"
version = "0.1.0"
edition = "2021"
publish = false

[dependencies]
image = "0.24"
arboard = "3"
async-std = "1"
bonsaidb = { version = "0.5", features = ["local"] }
time = "0.3"
serde = { version = "1", features = ["derive"] }
anyhow = "1"
log = "0.4"
