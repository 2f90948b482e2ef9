[package]
name = "rizzybox"
version = "0.1.0"
edition = "2021"
publish = false

[dependencies]
anyhow = "1"
bat = { version = "*", default-features = false, features = ["regex-fancy"] }
clap = { version = "4", features = ["derive"] }
clap_complete = "4"
libc = "0.2"
log = "0.4"
num_cpus = "1"
rustix = { version = "1", features = ["process", "mount", "system", "fs"] }
styrolite = "*"
users = "0.11"
