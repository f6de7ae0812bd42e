[package]
name = "occlum_exec"
version = "0.1.0"
edition = "2021"
publish = false

[dependencies]
chrono = "0.4"
futures = "0.3"
grpc = "0.8"
libc = "0.2"
nix = { version = "0.29", features = ["signal"] }
sendfd = "0.3"
timer = "0.2"
