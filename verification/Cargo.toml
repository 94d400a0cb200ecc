[package]
name = "photometer"
version = "0.1.0"
edition = "2021"
publish = false

[dependencies]
time = "=0.1.45"
rand = "=0.3.23"
regex = "=1.13.1"
rust-crypto = "=0.2.36"
rustc-serialize = "=0.3.25"
libc = "=0.2.191"
log = "=0.4.35"
env_logger = { version = "=0.9.3", default-features = false }
iron = "=0.6.1"
router = "=0.6.0"
url = "=2.5.8"
percent-encoding = "=2.3.2"
mysql = { version = "=28.0.4", default-features = false, features = ["minimal"] }
lettre = { version = "=0.10.4", default-features = false, features = ["builder", "smtp-transport"] }
