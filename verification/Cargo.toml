[package]
name = "recoil"
version = "1.0.0"
edition = "2021"
publish = false

[dependencies]
aes-gcm = "=0.10.3"
pbkdf2 = { version = "=0.12.2", default-features = false }
hmac = "=0.12.1"
sha2 = { version = "=0.10.9", features = ["asm"] }
rand = "=0.8.8"
chrono = { version = "=0.4.45", features = ["serde"] }
clap = { version = "=4.6.7", features = ["derive", "env"] }
console = "=0.15.11"
dirs = "=5.0.1"
indicatif = "=0.17.11"
libc = "=0.2.191"
nix = { version = "=0.29.0", features = ["fs"] }
rpassword = "=7.5.4"
serde = { version = "=1.0.229", features = ["derive"] }
serde_json = "=1.0.154"
thiserror = "=1.0.69"
tokio = { version = "=1.54.1", features = ["macros", "rt-multi-thread"] }
tracing = "=0.1.44"
tracing-subscriber = { version = "=0.3.23", features = ["env-filter"] }
zeroize = { version = "=1.9.1", features = ["derive"] }
