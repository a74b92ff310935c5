[package]
name = "allocation_catcher"
version = "0.1.0"
edition = "2021"
publish = false

[dependencies]
anyhow = "1"
backtrace = "0.3"
bytes = "1"
clap = "4"
interprocess = { version = "1", default-features = false }
prost = "0.12"
rand = "0.8"
retour = "0.3"
winapi = { version = "0.3", features = ["basetsd", "debugapi", "libloaderapi", "minwindef", "ntdef", "processthreadsapi", "winnt", "winuser"] }
