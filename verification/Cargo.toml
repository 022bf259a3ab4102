[package]
name = "iroh-ssh"
version = "0.1.0"
edition = "2021"
publish = false

[dependencies]
anyhow = "=1.0.104"
clap = { version = "=4.6.7", default-features = false, features = ["derive", "std", "help", "usage", "error-context"] }
der = { version = "=0.8.0-rc.9", default-features = false }
ed25519 = { version = "=3.0.0-rc.1", default-features = false }
iroh = { version = "=0.95.1", default-features = false }
pem-rfc7468 = { version = "=1.0.0-rc.3", default-features = false }
pkcs8 = { version = "=0.11.0-rc.7", default-features = false }
rand = "=0.9.5"
signature = { version = "=3.0.0-rc.4", default-features = false }
spki = { version = "=0.8.0-rc.4", default-features = false }
tokio = { version = "=1.54.1", features = ["rt-multi-thread", "macros", "net", "io-util", "io-std", "process", "signal", "time", "sync"] }
tracing = "=0.1.44"
tracing-appender = "=0.2.5"
tracing-subscriber = "=0.3.23"
windows-service = "=0.8.1"
windows-sys = { version = "=0.59.0", features = ["Win32_Foundation", "Win32_Security", "Win32_Security_Authorization", "Win32_Storage_FileSystem"] }
z32 = "=1.3.0"
