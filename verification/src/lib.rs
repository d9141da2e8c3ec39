//! Decision logic of a container workspace gateway.
//!
//! Everything here computes: it takes what the host, the container runtime and
//! the network answered as plain values and says what the gateway does next.

pub mod config;
pub mod failure;
pub mod gateway;
pub mod health_probe;
pub mod json;
pub mod launch_args;
pub mod logging;
pub mod paths;
pub mod process_security;
pub mod random;
pub mod rotating_log;
pub mod runtime;
pub mod text;
pub mod text_map;
pub mod text_parts;
pub mod unix_path;
