[package]
name = "shell_escape_fs"
version = "0.1.0"
edition = "2021"
publish = false

[dependencies]
serde_json = "*"
fuser = "*"
libc = "*"
wait-timeout = "*"
