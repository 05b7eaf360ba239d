[package]
name = "shut"
version = "0.1.0"
edition = "2021"
publish = false

[dependencies]
netstat2 = "*"
tokio = { version = "*", features = ["macros", "rt-multi-thread"] }
log = "*"
env_logger = "*"
exitcode = "*"
libc = "*"
