//! Resolution of launch specifications for external tool servers and of the
//! environment handed to spawned processes.
//!
//! Every function here is pure: it maps plain values to plain values and is
//! verified against a mathematical model of its inputs and outputs.

pub mod config_types;
pub mod env_map;
pub mod exec_env;
pub mod mcp_presets;
pub mod timeout;
