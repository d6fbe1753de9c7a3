[package]
name = "debugger_core"
version = "0.1.0"
edition = "2021"
publish = false

[dependencies]
elf = "*"
clap-num = "*"
nix = { version = "*", features = ["ptrace", "process", "signal", "fs"] }
clap = { version = "*", features = ["derive"] }
clap-repl = "*"
dotenvy = "*"
env_logger = "*"
envconfig = "*"
log = "*"
thiserror = "*"
