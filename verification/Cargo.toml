[package]
name = "code_executor"
version = "0.1.0"
edition = "2021"
publish = false

[dependencies]
cgroups-rs = "*"
libseccomp = "*"
nix = { version = "*", features = ["fs", "process", "resource", "signal"] }
thiserror = "*"
tokio = { version = "*", features = ["fs", "io-util", "macros", "process", "rt", "rt-multi-thread", "time"] }
tracing = "*"
uuid = { version = "*", features = ["v4"] }
