[package]
name = "oliana"
version = "0.1.0"
edition = "2021"
publish = false

[dependencies]
serde_json = "1"
pciid-parser = "*"
serde = { version = "1", features = ["derive"] }
tokio = { version = "1", features = ["full"] }
tarpc = { version = "*", features = ["full"] }
futures = "0.3"
sysinfo = "*"
nix = { version = "*", features = ["signal"] }
walkdir = "2"
filetime = "0.2"
pci-info = "*"
num_cpus = "1"
dirs = "*"
