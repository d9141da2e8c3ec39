//! The HTTP transport: who may ask, what is asked, and what is answered.

pub mod auth;
pub mod body;
pub mod output_projection;
pub mod pty;
pub mod request;
pub mod response;
