//! The operations of the gateway, whatever transport they come by.

pub mod dispatch;
pub mod remove;
pub mod request;
pub mod ssh;
pub mod types;
