[package]
name = "reloaded_code"
version = "0.1.0"
edition = "2021"
publish = false

[dependencies]
serde = { version = "=1.0.229", features = ["derive"] }
serde_json = "=1.0.154"
serde_yaml = "=0.9.34"
indexmap = { version = "=2.14.2", features = ["serde"] }
regex = "=1.13.1"
globset = "=0.4.21"
glob = "=0.3.4"
ignore = "=0.4.34"
html-to-markdown-rs = "=3.19.1"
dirs = "=7.0.0"
thiserror = "=2.0.21"
zstd = "=0.13.4"
bitcode = "=0.6.9"
reqwest = { version = "=0.12.28", default-features = false, features = ["blocking"] }
serdes-ai-models = { version = "=0.2.6", features = ["openai", "anthropic", "google", "groq", "mistral", "ollama", "azure", "openrouter", "huggingface", "cohere", "chatgpt-oauth", "antigravity"] }
rig-core = "=0.38.2"
schemars = "=1.2.3"
