[package]
name = "sn_node_core"
version = "0.1.0"
edition = "2021"
publish = false

[dependencies]
bincode = "1.3"
blsttc = "8.0"
clap = { version = "3.2", features = ["derive", "env"] }
color-eyre = "0.6"
custom_debug = "0.5"
dirs-next = "2.0"
libp2p = { version = "0.53", features = ["kad", "tokio"] }
rmp-serde = "1.1"
serde = { version = "1.0", features = ["derive"] }
thiserror = "1.0"
tiny-keccak = { version = "2.0", features = ["sha3"] }
tokio = { version = "1", features = ["time", "rt", "macros"] }
tracing = "0.1"
tracing-subscriber = "0.3"
