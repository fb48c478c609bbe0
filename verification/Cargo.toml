[package]
name = "spawner"
version = "0.1.0"
edition = "2021"
publish = false

[dependencies]
proc-macro2 = "0.4"
quote = "0.6"
rand = "0.6"
syn = "0.15"
winapi = { version = "0.3", features = ["basetsd", "minwindef", "windef", "handleapi", "processthreadsapi", "securitybaseapi", "userenv", "winbase", "winnt", "winuser"] }
