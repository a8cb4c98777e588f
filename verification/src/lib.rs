//! Lifecycle management for locally installed inference-server binaries.

pub mod api;
pub mod archive;
pub mod context;
pub mod download;
pub mod events;
pub mod fstree;
pub mod install;
pub mod installed;
pub mod json;
pub mod links;
pub mod logs;
pub mod models;
pub mod ollama;
pub mod platform;
pub mod plugins;
pub mod process;
pub mod resolver;
pub mod sizes;
pub mod store;
pub mod supervisor;
pub mod text;
pub mod transfer;
