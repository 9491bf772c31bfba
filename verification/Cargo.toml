[package]
name = "eck"
version = "0.3.0"
edition = "2021"
publish = false

[dependencies]
argon2 = "=0.5.3"
rand = "=0.8.8"
hex = "=0.4.3"
fmodeparser = "=0.1.0"
chacha20poly1305 = "0.10"
postcard = { version = "=1.1.3", features = ["alloc"] }
serde = { version = "=1.0.229", features = ["derive"] }
serde_json = "=1.0.154"
directories = "=6.0.0"
dirs = "=7.0.0"
keyring = "=3.6.3"
libc = "=0.2.191"
zeroize = "=1.9.1"
clap = { version = "=4.6.7", features = ["derive"] }
colored = "=3.1.1"
inquire = "=0.9.4"
rfd = { version = "=0.17.2", default-features = false, features = ["xdg-portal"] }
infer = "=0.22.0"
tracing = "=0.1.44"

[dev-dependencies]
tempfile = "=3.27.0"
