[package]
name = "plexi_core"
version = "0.1.0"
edition = "2021"
publish = false

[dependencies]
akd = { version = "=0.13.0", features = ["whatsapp_v1", "public_auditing"] }
anyhow = "=1.0.104"
clap = { version = "=4.6.7", features = ["derive", "env"] }
clap-verbosity-flag = "=3.0.4"
colored = "=3.1.1"
ed25519-dalek = "=2.2.0"
env_logger = "=0.11.11"
hex = { version = "=0.4.3", features = ["serde"] }
log = "=0.4.34"
protobuf = "=3.7.2"
reqwest = { version = "=0.12.28", features = ["json", "native-tls"] }
serde = { version = "=1.0.229", features = ["derive"] }
serde_json = "=1.0.154"
time = { version = "=0.3.55", features = ["formatting", "parsing"] }
tokio = { version = "=1.54.1", features = ["macros", "rt-multi-thread", "time"] }
uuid = { version = "=1.29.0", features = ["serde"] }

[dev-dependencies]
bincode = "=2.0.1"
prost = "=0.13.5"
