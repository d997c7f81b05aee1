//! Verified core of a toolkit for LLM coding agents: file editing, line-numbered
//! reading, search-result shaping, shell-output formatting, settings validation,
//! provider configuration merging and model-catalog mapping.

pub mod core_tools;
pub mod models;
pub mod models_dev;
pub mod provider_config;
pub mod text;
pub mod rig_tools;
pub mod serdesai;
pub mod utf8;
