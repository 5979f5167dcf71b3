[package]
name = "launcher"
version = "1.0.0"
edition = "2021"
publish = false

[dependencies]
anyhow = "1"
chrono = "0.4"
console = "0.15"
directories = "5"
dirs = "5"
hex = "0.4"
indicatif = "0.17"
libc = "0.2"
reqwest = { version = "0.12", features = ["json"] }
serde = { version = "1", features = ["derive"] }
serde_json = "1"
sha2 = "0.10"
tokio = { version = "1", features = ["full"] }
tracing-subscriber = { version = "0.3", features = ["env-filter"] }
which = "4"
winapi = { version = "0.3", features = ["handleapi", "processthreadsapi", "securitybaseapi", "shellapi", "winnt", "winuser"] }
zip = { version = "0.6", default-features = false, features = ["deflate"] }
