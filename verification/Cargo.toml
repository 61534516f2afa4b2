[package]
name = "mzr"
version = "0.1.0"
edition = "2021"
publish = false

[dependencies]
chrono = "*"
daemonize = "*"
libc = "*"
libmount = "*"
nix = { version = "*", features = ["sched", "mount", "user", "process", "signal", "fs"] }
semver = "*"
serde = { version = "*", features = ["derive"] }
serde_json = "*"
structopt = "*"
walkdir = "*"
yansi = "*"
