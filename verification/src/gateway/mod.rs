//! The gateway: targets, containers, sessions and the operations on them.

pub mod agent_client;
pub mod client;
pub mod container_spec;
pub mod control_sockets;
pub mod execution;
pub mod failures;
pub mod health;
pub mod host_socket_exposures;
pub mod http;
pub mod identity;
pub mod lifecycle;
pub mod lifecycle_hooks;
pub mod listener;
pub mod model;
pub mod ops;
pub mod ownership;
pub mod published_port;
pub mod render;
pub mod session;
pub mod state;
pub mod status_view;
pub mod tokens;
pub mod workspace;
