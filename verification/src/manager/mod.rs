//! Managers used by the system: plugins and configuration files.

pub mod plugin;
pub mod config;
