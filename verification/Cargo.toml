[package]
name = "polkadot_kit"
version = "0.1.0"
edition = "2021"
publish = false

[dependencies]
frame-support = "*"
frame-system = "*"
is_executable = "*"
log = "*"
parity-scale-codec = { version = "*", features = ["derive"] }
rand = "0.8"
scale-info = { version = "*", features = ["derive"] }
sp-arithmetic = "*"
sp-io = "*"
sp-runtime = "*"
sp-tracing = "*"
