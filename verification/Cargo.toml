[package]
name = "wg_nat"
version = "0.1.0"
edition = "2021"
publish = false

[dependencies]
base64 = "=0.13.1"
bytes = "=1.12.1"
clap = { version = "=3.2.25", features = ["derive"] }
ctrlc = "=3.5.2"
libc = "=0.2.191"
netlink-packet-core = "=0.4.2"
netlink-packet-generic = "=0.3.1"
netlink-packet-wireguard = "=0.2.1"
netlink-sys = { version = "=0.8.8", features = ["smol_socket"] }
nix = "=0.26.4"
smol = "=1.3.0"
socket2 = "=0.4.10"
