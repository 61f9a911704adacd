[package]
name = "midl-escalator"
version = "0.1.0"
edition = "2021"
publish = false

[dependencies]
rlp = "=0.5.2"
ethereum-types = { version = "=0.14.1", default-features = false, features = ["std", "rlp", "serialize"] }
k256 = { version = "=0.13.4", default-features = false, features = ["ecdsa", "std"] }
tiny-keccak = { version = "=2.0.2", default-features = false, features = ["keccak"] }
instant = "=0.1.13"
async-trait = "=0.1.92"
futures-util = "=0.3.34"
hex = "=0.4.3"
thiserror = "=1.0.69"
tokio = { version = "=1.54.1", default-features = false, features = ["rt", "time"] }
tracing = "=0.1.44"
tracing-futures = { version = "=0.2.5", default-features = false, features = ["std", "std-future"] }
serde = { version = "=1.0.229", features = ["derive"] }
serde_json = "=1.0.154"
