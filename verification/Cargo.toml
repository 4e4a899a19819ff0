[package]
name = "tive"
version = "0.1.0"
edition = "2021"
publish = false

[dependencies]
anyhow = "1"
async-stream = "0.3"
chrono = "0.4"
crossterm = { version = "0.28", features = ["event-stream"] }
directories = "6"
futures = "0.3"
futures-util = "0.3"
inotify = "0.11"
nix = { version = "0.29", features = ["signal"] }
ratatui = { version = "0.29", features = ["unstable-widget-ref"] }
reqwest = { version = "0.12", default-features = false, features = ["stream"] }
serde = { version = "1", features = ["derive"] }
serde_json = "1"
textwrap = "0.16"
tokio = { version = "1", features = ["full"] }
tracing = "0.1"
tracing-error = "0.2"
tracing-subscriber = { version = "0.3", features = ["env-filter"] }
tui-textarea = "0.7"
